//! What the GPU is asked to hold and to do: the parameter block, the sizes
//! of the buffers, the number of work groups, and the two passes of a frame.

use vstd::prelude::*;
use crate::app::{AppState, ConfigError};
use crate::arith::{ceil_div, ceil_div_u32, lemma_ceil_div, lemma_ceil_div_least};
use crate::buffers::{
    byte_size,
    current_index,
    initial_cells,
    is_initial_state,
    is_memory_image,
    lemma_roles_alternate,
    next_index,
    source_of,
    target_of,
    words_to_bytes,
    SIZE_OF_U32,
};

verus! {

/// Cells handled by one work group of the compute stage. Lower is better
/// for load balance, at the price of more groups to dispatch.
pub const CELLS_PER_GROUP: u32 = 50;

/// Number of words in the parameter block.
pub const SIM_PARAM_COUNT: u64 = 7;

/// Size in bytes of one color channel.
pub const SIZE_OF_F32: u64 = 4;

/// Channels of one color of the palette.
pub const COLOR_CHANNELS: u64 = 3;

/// Vertices of the quad that stands for a cell: two triangles.
pub const SQUARE_VERTEX_COUNT: u32 = 6;

/// Coordinates of one vertex of the quad.
pub const VERTEX_COORDINATES: u64 = 2;

/// Where a frame stands between two redraw requests.
#[derive(Debug, Clone, Copy, PartialEq, Eq, Structural)]
pub enum FramePhase {
    /// Nothing is under way.
    Idle,
    /// The compute pass was handed to the device; an image of the surface
    /// is still to be had.
    ComputeDispatched,
    /// The draw pass was handed to the device.
    Rendered,
    /// The image was handed back for display.
    Presented,
    /// The session is over.
    Halted,
}

/// What the sizing of the work reads of the adapter and its device.
#[derive(Debug, Clone, Copy, PartialEq, Eq, Structural)]
pub struct DeviceLimits {
    /// The adapter can run compute shaders.
    pub compute_shaders: bool,
    /// Most work groups one dispatch can have along one dimension.
    pub max_compute_workgroups_per_dimension: u32,
    /// Most invocations one work group can have.
    pub max_compute_invocations_per_workgroup: u32,
    /// Largest first dimension of a work group.
    pub max_compute_workgroup_size_x: u32,
    /// Largest storage buffer binding, in bytes.
    pub max_storage_buffer_binding_size: u32,
    /// Largest buffer, in bytes.
    pub max_buffer_size: u64,
}

/// Sizes, in bytes, that the layouts of the two stages declare.
#[derive(Debug, Clone, Copy, PartialEq, Eq, Structural)]
pub struct ResourceLayout {
    /// The parameter block.
    pub sim_params_size: u64,
    /// One cell buffer.
    pub cells_size: u64,
    /// The palette.
    pub colormap_size: u64,
    /// Step from one instance to the next in a cell buffer.
    pub instance_stride: u64,
    /// Step from one vertex to the next in the quad.
    pub vertex_stride: u64,
}

/// The compute pass of one frame.
#[derive(Debug, Clone, Copy, PartialEq, Eq, Structural)]
pub struct ComputePass {
    /// Bind group to use; it reads the buffer of the same index and writes
    /// the other.
    pub bind_group: usize,
    /// Number of work groups to dispatch.
    pub work_groups: u32,
}

/// The draw pass of one frame.
#[derive(Debug, Clone, Copy, PartialEq, Eq, Structural)]
pub struct DrawPass {
    /// Cell buffer that gives each instance its state.
    pub instance_buffer: usize,
    /// Number of vertices of one instance.
    pub vertex_count: u32,
    /// Number of instances: one for each cell.
    pub instance_count: u32,
}

/// Both passes of one frame, in the order they are handed to the device.
#[derive(Debug, Clone, Copy, PartialEq, Eq, Structural)]
pub struct FramePlan {
    /// First the step of the automaton.
    pub compute: ComputePass,
    /// Then the picture of what the step has written.
    pub draw: DrawPass,
}

/// The plain state of the pipeline between frames.
#[derive(Debug, Clone, Copy, PartialEq, Eq, Structural)]
pub struct WgpuContext {
    /// Sizes declared to the device.
    pub layout: ResourceLayout,
    /// Work groups of each compute pass.
    pub work_group_count: u32,
    /// Instances of each draw pass.
    pub instance_count: u32,
    /// Frames presented so far. Its parity picks the roles of the buffers.
    pub frame_num: usize,
    /// Where the frame under way stands.
    pub phase: FramePhase,
    /// Times an image of the surface was asked for in the frame under way.
    pub acquisitions: u8,
}

/// The parameter block: seven words, in the order both shaders read them.
pub open spec fn sim_params_of(state: AppState) -> Seq<u32> {
    seq![
        state.width,
        state.height,
        state.cell_dimension,
        state.cell_number_x,
        state.cell_number_y,
        state.total_cell_number,
        state.color_number,
    ]
}

/// The sizes that follow from a grid.
pub open spec fn layout_of(state: AppState) -> ResourceLayout {
    ResourceLayout {
        sim_params_size: 28,
        cells_size: (state.total_cell_number * 4) as u64,
        colormap_size: (state.color_number * 12) as u64,
        instance_stride: 4,
        vertex_stride: 8,
    }
}

impl DeviceLimits {
    /// Most cells one dispatch can handle: each work group takes
    /// `CELLS_PER_GROUP` of them.
    pub open spec fn max_invocations(&self) -> nat {
        (self.max_compute_workgroups_per_dimension * CELLS_PER_GROUP) as nat
    }

    /// The device can run a work group of `CELLS_PER_GROUP` invocations.
    pub open spec fn runs_groups(&self) -> bool {
        &&& self.compute_shaders
        &&& self.max_compute_invocations_per_workgroup >= CELLS_PER_GROUP
        &&& self.max_compute_workgroup_size_x >= CELLS_PER_GROUP
    }

    /// Why a grid of `total_cells` cells cannot run on this device, if that
    /// is so.
    pub open spec fn fault(&self, total_cells: u32) -> Option<ConfigError> {
        if !self.runs_groups() {
            Some(ConfigError::ComputeUnsupported)
        } else if total_cells > self.max_invocations() {
            Some(ConfigError::TooManyInvocations)
        } else if total_cells * 4 > self.max_storage_buffer_binding_size || total_cells * 4
            > self.max_buffer_size {
            Some(ConfigError::CellBufferTooLarge)
        } else {
            None
        }
    }

    /// Tells whether a grid of `total_cells` cells can run on this device.
    pub fn check(&self, total_cells: u32) -> (result: Result<(), ConfigError>)
        ensures
            result == match self.fault(total_cells) {
                Some(error) => Err::<(), ConfigError>(error),
                None => Ok(()),
            },
            result is Ok ==> ceil_div(total_cells as nat, CELLS_PER_GROUP as nat)
                <= self.max_compute_workgroups_per_dimension,
    {
        if !self.compute_shaders || self.max_compute_invocations_per_workgroup < CELLS_PER_GROUP
            || self.max_compute_workgroup_size_x < CELLS_PER_GROUP {
            return Err(ConfigError::ComputeUnsupported);
        }
        let capacity: u64 = self.max_compute_workgroups_per_dimension as u64
            * CELLS_PER_GROUP as u64;
        if total_cells as u64 > capacity {
            return Err(ConfigError::TooManyInvocations);
        }
        let bytes: u64 = byte_size(total_cells);
        if bytes > self.max_storage_buffer_binding_size as u64 || bytes > self.max_buffer_size {
            return Err(ConfigError::CellBufferTooLarge);
        }
        proof {
            lemma_ceil_div_least(
                total_cells as nat,
                CELLS_PER_GROUP as nat,
                self.max_compute_workgroups_per_dimension as nat,
            );
        }
        Ok(())
    }
}

/// Number of work groups that cover `total_cells` cells.
pub fn work_group_count(total_cells: u32) -> (groups: u32)
    ensures
        groups == ceil_div(total_cells as nat, CELLS_PER_GROUP as nat),
        groups * CELLS_PER_GROUP >= total_cells,
        groups > 0 ==> (groups - 1) * CELLS_PER_GROUP < total_cells,
{
    proof {
        lemma_ceil_div(total_cells as nat, CELLS_PER_GROUP as nat);
    }
    ceil_div_u32(total_cells, CELLS_PER_GROUP)
}

/// Number of channels of a palette of `color_number` colors.
pub fn colormap_len(color_number: u32) -> (len: u64)
    ensures
        len == color_number * COLOR_CHANNELS,
{
    color_number as u64 * COLOR_CHANNELS
}

/// The factor by which the full-screen quad is scaled down to one cell:
/// the smaller of the two cell counts.
pub fn quad_divisor(state: &AppState) -> (divisor: u32)
    ensures
        divisor <= state.cell_number_x,
        divisor <= state.cell_number_y,
        divisor == state.cell_number_x || divisor == state.cell_number_y,
{
    if state.cell_number_x <= state.cell_number_y {
        state.cell_number_x
    } else {
        state.cell_number_y
    }
}

/// The words of the parameter block.
pub fn sim_params(state: &AppState) -> (words: Vec<u32>)
    ensures
        words@ == sim_params_of(*state),
        words@.len() == SIM_PARAM_COUNT,
{
    let mut words: Vec<u32> = Vec::new();
    words.push(state.width);
    words.push(state.height);
    words.push(state.cell_dimension);
    words.push(state.cell_number_x);
    words.push(state.cell_number_y);
    words.push(state.total_cell_number);
    words.push(state.color_number);
    assert(words@ =~= sim_params_of(*state));
    words
}

/// The parameter block as the device gets it.
pub fn sim_params_bytes(state: &AppState) -> (bytes: Vec<u8>)
    ensures
        is_memory_image(bytes@, sim_params_of(*state)),
        bytes@.len() == layout_of(*state).sim_params_size,
{
    let words = sim_params(state);
    words_to_bytes(&words)
}

/// The sizes that the layouts of both stages declare for a grid.
pub fn resource_layout(state: &AppState) -> (layout: ResourceLayout)
    ensures
        layout == layout_of(*state),
{
    ResourceLayout {
        sim_params_size: SIM_PARAM_COUNT * SIZE_OF_U32,
        cells_size: byte_size(state.total_cell_number),
        colormap_size: colormap_len(state.color_number) * SIZE_OF_F32,
        instance_stride: SIZE_OF_U32,
        vertex_stride: VERTEX_COORDINATES * SIZE_OF_F32,
    }
}

impl WgpuContext {
    /// The context is the one a session starts with on this grid.
    pub open spec fn starts(&self, state: AppState) -> bool {
        &&& self.layout == layout_of(state)
        &&& self.work_group_count == ceil_div(
            state.total_cell_number as nat,
            CELLS_PER_GROUP as nat,
        )
        &&& self.instance_count == state.total_cell_number
        &&& self.frame_num == 0
        &&& self.phase == FramePhase::Idle
        &&& self.acquisitions == 0
    }

    /// The two passes of the frame that comes next.
    pub open spec fn frame_plan(&self) -> FramePlan {
        FramePlan {
            compute: ComputePass {
                bind_group: source_of(self.frame_num as nat) as usize,
                work_groups: self.work_group_count,
            },
            draw: DrawPass {
                instance_buffer: target_of(self.frame_num as nat) as usize,
                vertex_count: SQUARE_VERTEX_COUNT,
                instance_count: self.instance_count,
            },
        }
    }

    /// The passes of a frame never meet on a buffer: the draw pass reads the
    /// buffer that the compute pass writes, which is not the one it reads;
    /// and the compute pass of the next frame reads what this one has written.
    pub proof fn lemma_passes_do_not_race(&self)
        requires
            self.frame_num < usize::MAX,
        ensures
            self.frame_plan().compute.bind_group < 2,
            self.frame_plan().draw.instance_buffer == (self.frame_plan().compute.bind_group + 1)
                % 2,
            self.frame_plan().draw.instance_buffer != self.frame_plan().compute.bind_group,
            (WgpuContext {
                frame_num: (self.frame_num + 1) as usize,
                ..*self
            }).frame_plan().compute.bind_group == self.frame_plan().draw.instance_buffer,
    {
        lemma_roles_alternate(self.frame_num as nat);
    }

    /// Sizes the work for a grid on a device, and draws the state that both
    /// cell buffers start from. Fails before anything is created when the
    /// device cannot run the grid.
    pub fn new(state: &AppState, limits: &DeviceLimits, rng: &mut nanorand::WyRand) -> (result:
        Result<(WgpuContext, Vec<u32>), ConfigError>)
        ensures
            match limits.fault(state.total_cell_number) {
                Some(error) => result == Err::<(WgpuContext, Vec<u32>), ConfigError>(error),
                None => result matches Ok(made) && made.0.starts(*state) && is_initial_state(
                    made.1@,
                    state.total_cell_number,
                    state.color_number,
                ) && made.0.work_group_count <= limits.max_compute_workgroups_per_dimension,
            },
    {
        match limits.check(state.total_cell_number) {
            Err(error) => Err(error),
            Ok(()) => {
                let cells = initial_cells(state.total_cell_number, state.color_number, rng);
                let context = WgpuContext {
                    layout: resource_layout(state),
                    work_group_count: work_group_count(state.total_cell_number),
                    instance_count: state.total_cell_number,
                    frame_num: 0,
                    phase: FramePhase::Idle,
                    acquisitions: 0,
                };
                Ok((context, cells))
            },
        }
    }

    /// The two passes of the frame that comes next: compute from the
    /// current buffer into the other, then draw from that other buffer.
    pub fn render(&self) -> (plan: FramePlan)
        ensures
            plan == self.frame_plan(),
            plan.compute.bind_group != plan.draw.instance_buffer,
            plan.compute.bind_group < 2,
            plan.draw.instance_buffer < 2,
    {
        proof {
            lemma_roles_alternate(self.frame_num as nat);
        }
        FramePlan {
            compute: ComputePass {
                bind_group: current_index(self.frame_num),
                work_groups: self.work_group_count,
            },
            draw: DrawPass {
                instance_buffer: next_index(self.frame_num),
                vertex_count: SQUARE_VERTEX_COUNT,
                instance_count: self.instance_count,
            },
        }
    }
}

} // verus!
