//! The command line as a list of arguments from which flags and options
//! are taken out one by one.

use vstd::prelude::*;
use crate::decimal::{decimal_u32, parse_u32};

verus! {

/// The `Arguments` of pico-args: the list of the arguments that no call
/// has taken out yet.
#[verifier::external_type_specification]
#[verifier::external_body]
pub struct ExArguments(pico_args::Arguments);

/// The `Error` of pico-args. Nothing is read of it: which error a call
/// gives follows from the list it was made on.
#[verifier::external_type_specification]
#[verifier::external_body]
pub struct ExArgumentsError(pico_args::Error);

/// The arguments that an `Arguments` of pico-args still holds, in their
/// order, each as its text.
pub uninterp spec fn remaining(arguments: pico_args::Arguments) -> Seq<Seq<char>>;

/// Every argument that an `Arguments` of pico-args still holds is valid
/// Unicode text, so that `remaining` gives it as it is.
pub uninterp spec fn is_text(arguments: pico_args::Arguments) -> bool;

/// What can be wrong with an option that takes a number.
#[derive(Debug, Clone, Copy, PartialEq, Eq, Structural)]
pub enum OptionFault {
    /// The option is the last argument: no value follows it.
    MissingValue,
    /// The value that follows the option is no number.
    InvalidNumber,
}

/// The texts of a list of strings.
pub open spec fn texts(args: Seq<String>) -> Seq<Seq<char>> {
    Seq::new(args.len(), |i: int| args[i]@)
}

/// Index of the first argument equal to `key`; the length of the list if
/// there is none.
pub open spec fn position(args: Seq<Seq<char>>, key: Seq<char>) -> int
    decreases args.len(),
{
    if args.len() == 0 {
        0
    } else if args[0] == key {
        0
    } else {
        1 + position(args.subrange(1, args.len() as int), key)
    }
}

/// A key of two dashes and a name.
pub open spec fn is_long_key(key: Seq<char>) -> bool {
    key.len() > 2 && key[0] == '-' && key[1] == '-'
}

/// A key of one dash and one letter.
pub open spec fn is_short_key(key: Seq<char>) -> bool {
    key.len() == 2 && key[0] == '-' && key[1] != '-'
}

/// Where a flag stands under either of its keys: the first occurrence of
/// the short key if there is one, else that of the long key; the length of
/// the list if there is neither.
pub open spec fn flag_position(args: Seq<Seq<char>>, short: Seq<char>, long: Seq<char>) -> int {
    if position(args, short) < args.len() {
        position(args, short)
    } else {
        position(args, long)
    }
}

/// The option is given and an argument follows it.
pub open spec fn has_value(args: Seq<Seq<char>>, key: Seq<char>) -> bool {
    position(args, key) + 1 < args.len()
}

/// The option is given as the last argument.
pub open spec fn dangles(args: Seq<Seq<char>>, key: Seq<char>) -> bool {
    position(args, key) + 1 == args.len()
}

/// The list once the option and its value are taken out of it.
pub open spec fn without_option(args: Seq<Seq<char>>, key: Seq<char>) -> Seq<Seq<char>> {
    if has_value(args, key) {
        args.remove(position(args, key)).remove(position(args, key))
    } else {
        args
    }
}

/// The number an option gives: the one written after its first occurrence,
/// or `default` where the option is not given.
pub open spec fn number_option(args: Seq<Seq<char>>, key: Seq<char>, default: u32) -> Result<
    u32,
    OptionFault,
> {
    if dangles(args, key) {
        Err(OptionFault::MissingValue)
    } else if has_value(args, key) {
        match decimal_u32(args[position(args, key) + 1]) {
            Some(value) => Ok(value),
            None => Err(OptionFault::InvalidNumber),
        }
    } else {
        Ok(default)
    }
}

/// Calls `Arguments::from_vec` of pico-args, which keeps the arguments as
/// they are given. They are all text, since they come from strings.
#[verifier::external_body]
pub(crate) fn arguments_of(args: Vec<String>) -> (arguments: pico_args::Arguments)
    ensures
        remaining(arguments) == texts(args@),
        is_text(arguments),
{
    pico_args::Arguments::from_vec(args.into_iter().map(|arg| arg.into()).collect())
}

/// Calls `Arguments::contains` of pico-args with a short and a long key.
/// It looks for an argument equal to the short key, then for one equal to
/// the long key, takes the first it finds out of the list and tells whether
/// it found one.
#[verifier::external_body]
pub(crate) fn take_flag(
    arguments: &mut pico_args::Arguments,
    short: &'static str,
    long: &'static str,
) -> (found: bool)
    requires
        is_text(*old(arguments)),
        is_short_key(short@),
        is_long_key(long@),
    ensures
        found == (flag_position(remaining(*old(arguments)), short@, long@) < remaining(
            *old(arguments),
        ).len()),
        found ==> remaining(*final(arguments)) == remaining(*old(arguments)).remove(
            flag_position(remaining(*old(arguments)), short@, long@),
        ),
        !found ==> remaining(*final(arguments)) == remaining(*old(arguments)),
        is_text(*final(arguments)),
{
    arguments.contains([short, long])
}

/// Calls `Arguments::opt_value_from_str` of pico-args for a `String`. It
/// looks for the first argument equal to the key. Where there is none it
/// gives `None` and leaves the list alone. Where one is found and an
/// argument follows it, it gives that argument and takes both out of the
/// list. Where one is found as the last argument it fails and leaves the
/// list alone.
#[verifier::external_body]
pub(crate) fn take_value(arguments: &mut pico_args::Arguments, key: &'static str) -> (result:
    Result<Option<String>, pico_args::Error>)
    requires
        is_text(*old(arguments)),
        is_long_key(key@),
    ensures
        result is Err <==> dangles(remaining(*old(arguments)), key@),
        result matches Ok(Some(value)) ==> has_value(remaining(*old(arguments)), key@)
            && value@ == remaining(*old(arguments))[position(remaining(*old(arguments)), key@)
            + 1],
        result matches Ok(None) ==> !has_value(remaining(*old(arguments)), key@),
        remaining(*final(arguments)) == without_option(remaining(*old(arguments)), key@),
        is_text(*final(arguments)),
{
    arguments.opt_value_from_str::<&'static str, String>(key)
}

/// Takes a number option out of the list: the number written after the
/// first occurrence of `key`, or `default` where the key is not given.
pub(crate) fn take_number(
    arguments: &mut pico_args::Arguments,
    key: &'static str,
    default: u32,
) -> (result: Result<u32, OptionFault>)
    requires
        is_text(*old(arguments)),
        is_long_key(key@),
    ensures
        result == number_option(remaining(*old(arguments)), key@, default),
        remaining(*final(arguments)) == without_option(remaining(*old(arguments)), key@),
        is_text(*final(arguments)),
{
    match take_value(arguments, key) {
        Err(_) => Err(OptionFault::MissingValue),
        Ok(None) => Ok(default),
        Ok(Some(text)) => match parse_u32(text.as_str()) {
            Some(value) => Ok(value),
            None => Err(OptionFault::InvalidNumber),
        },
    }
}

} // verus!
