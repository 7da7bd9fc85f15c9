use nanorand::WyRand;
use saxrumfex::app::{AppArgs, AppState, ConfigError};
use saxrumfex::graphics::{
    quad_divisor, resource_layout, work_group_count, ComputePass, DeviceLimits, DrawPass,
    FramePhase, FramePlan, ResourceLayout, WgpuContext, CELLS_PER_GROUP, SQUARE_VERTEX_COUNT,
};

fn downlevel() -> DeviceLimits {
    DeviceLimits {
        compute_shaders: true,
        max_compute_workgroups_per_dimension: 65535,
        max_compute_invocations_per_workgroup: 256,
        max_compute_workgroup_size_x: 256,
        max_storage_buffer_binding_size: 128 << 20,
        max_buffer_size: 256 << 20,
    }
}

fn grid(window_size: u32, cell_number: u32) -> AppState {
    AppState::new(AppArgs { window_size, cell_number, color_number: 3 })
}

fn cells_only(total_cell_number: u32) -> AppState {
    AppState {
        width: total_cell_number,
        height: 1,
        cell_dimension: 1,
        cell_number_x: total_cell_number,
        cell_number_y: 1,
        total_cell_number,
        color_number: 2,
    }
}

#[test]
fn thousand_cells_take_twenty_groups() {
    assert_eq!(CELLS_PER_GROUP, 50);
    assert_eq!(work_group_count(1000), 20);
}

#[test]
fn groups_cover_every_cell() {
    assert_eq!(work_group_count(0), 0);
    assert_eq!(work_group_count(1), 1);
    assert_eq!(work_group_count(49), 1);
    assert_eq!(work_group_count(50), 1);
    assert_eq!(work_group_count(51), 2);
    assert_eq!(work_group_count(961), 20);
    assert_eq!(work_group_count(1001), 21);
    assert_eq!(work_group_count(1 << 25), 671089);
    assert_eq!(work_group_count(u32::MAX), 85899346);
    for total in 0..2000u32 {
        let groups = work_group_count(total);
        assert!(groups * CELLS_PER_GROUP >= total);
        assert!(groups == 0 || (groups - 1) * CELLS_PER_GROUP < total);
    }
}

#[test]
fn layout_follows_the_grid() {
    let state = grid(900, 1000);
    assert_eq!(
        resource_layout(&state),
        ResourceLayout {
            sim_params_size: 28,
            cells_size: 3844,
            colormap_size: 36,
            instance_stride: 4,
            vertex_stride: 8,
        }
    );
    let mut many = cells_only(u32::MAX);
    many.color_number = u32::MAX;
    let layout = resource_layout(&many);
    assert_eq!(layout.cells_size, 4 * (u32::MAX as u64));
    assert_eq!(layout.colormap_size, 12 * (u32::MAX as u64));
}

#[test]
fn quad_is_scaled_by_the_smaller_count() {
    assert_eq!(quad_divisor(&grid(900, 1000)), 31);
    let state = AppState::with_canvas(200, 50, 100, 4).unwrap();
    assert_eq!(quad_divisor(&state), 5);
    let state = AppState::with_canvas(50, 200, 100, 4).unwrap();
    assert_eq!(quad_divisor(&state), 5);
}

#[test]
fn context_starts_idle_at_frame_zero() {
    let state = grid(900, 1000);
    let mut rng = WyRand::new_seed(1);
    let (context, cells) = WgpuContext::new(&state, &downlevel(), &mut rng).unwrap();
    assert_eq!(
        context,
        WgpuContext {
            layout: resource_layout(&state),
            work_group_count: 20,
            instance_count: 961,
            frame_num: 0,
            phase: FramePhase::Idle,
            acquisitions: 0,
        }
    );
    assert_eq!(cells.len(), 961);
    assert!(cells.iter().all(|&cell| cell < 3));
}

#[test]
fn context_of_an_exact_grid() {
    let state = grid(100, 100);
    let mut rng = WyRand::new_seed(1);
    let (context, cells) = WgpuContext::new(&state, &downlevel(), &mut rng).unwrap();
    assert_eq!(context.work_group_count, 2);
    assert_eq!(context.instance_count, 100);
    assert_eq!(context.layout.cells_size, 400);
    assert_eq!(cells.len(), 100);
}

#[test]
fn adapter_without_compute_is_refused() {
    let state = grid(900, 1000);
    let mut rng = WyRand::new_seed(1);
    let mut limits = downlevel();
    limits.compute_shaders = false;
    assert_eq!(limits.check(961), Err(ConfigError::ComputeUnsupported));
    assert_eq!(
        WgpuContext::new(&state, &limits, &mut rng).map(|made| made.0),
        Err(ConfigError::ComputeUnsupported)
    );
    let mut limits = downlevel();
    limits.max_compute_invocations_per_workgroup = 49;
    assert_eq!(limits.check(0), Err(ConfigError::ComputeUnsupported));
    limits.max_compute_invocations_per_workgroup = 50;
    assert_eq!(limits.check(0), Ok(()));
    limits.max_compute_workgroup_size_x = 49;
    assert_eq!(limits.check(961), Err(ConfigError::ComputeUnsupported));
}

#[test]
fn more_cells_than_invocations_are_refused() {
    let limits = downlevel();
    assert_eq!(limits.check(65535 * 50), Ok(()));
    assert_eq!(limits.check(65535 * 50 + 1), Err(ConfigError::TooManyInvocations));
    assert_eq!(limits.check(u32::MAX), Err(ConfigError::TooManyInvocations));
    let mut rng = WyRand::new_seed(1);
    assert_eq!(
        WgpuContext::new(&cells_only(65535 * 50 + 1), &limits, &mut rng).map(|made| made.0),
        Err(ConfigError::TooManyInvocations)
    );
    let mut few = downlevel();
    few.max_compute_workgroups_per_dimension = 19;
    assert_eq!(few.check(950), Ok(()));
    assert_eq!(few.check(951), Err(ConfigError::TooManyInvocations));
    few.max_compute_workgroups_per_dimension = 0;
    assert_eq!(few.check(0), Ok(()));
    assert_eq!(few.check(1), Err(ConfigError::TooManyInvocations));
}

#[test]
fn cell_buffer_beyond_the_limits_is_refused() {
    let mut limits = downlevel();
    limits.max_storage_buffer_binding_size = 3843;
    assert_eq!(limits.check(961), Err(ConfigError::CellBufferTooLarge));
    limits.max_storage_buffer_binding_size = 3844;
    assert_eq!(limits.check(961), Ok(()));
    limits.max_buffer_size = 3843;
    assert_eq!(limits.check(961), Err(ConfigError::CellBufferTooLarge));
    let mut rng = WyRand::new_seed(1);
    assert_eq!(
        WgpuContext::new(&grid(900, 1000), &limits, &mut rng).map(|made| made.0),
        Err(ConfigError::CellBufferTooLarge)
    );
}

#[test]
fn frame_reads_one_buffer_and_draws_the_other() {
    let state = grid(900, 1000);
    let mut rng = WyRand::new_seed(1);
    let (mut context, _) = WgpuContext::new(&state, &downlevel(), &mut rng).unwrap();
    assert_eq!(
        context.render(),
        FramePlan {
            compute: ComputePass { bind_group: 0, work_groups: 20 },
            draw: DrawPass { instance_buffer: 1, vertex_count: 6, instance_count: 961 },
        }
    );
    context.frame_num = 1;
    assert_eq!(
        context.render(),
        FramePlan {
            compute: ComputePass { bind_group: 1, work_groups: 20 },
            draw: DrawPass { instance_buffer: 0, vertex_count: 6, instance_count: 961 },
        }
    );
    context.frame_num = usize::MAX;
    let plan = context.render();
    assert_eq!(plan.compute.bind_group, 1);
    assert_eq!(plan.draw.instance_buffer, 0);
    assert_eq!(plan.draw.vertex_count, SQUARE_VERTEX_COUNT);
    // Planning a frame does not move the counter.
    assert_eq!(context.frame_num, usize::MAX);
}
