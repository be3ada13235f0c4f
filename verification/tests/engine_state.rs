use gray_scott_reaction_diffusion::binary32::{MINUS_ONE, ONE, ZERO};
use gray_scott_reaction_diffusion::gray_scott_model::{
    bind_group_buffers, workgroup_count, Dispatch, SimulationParams, UV_PAIR_BYTES,
};
use gray_scott_reaction_diffusion::ReactionDiffusionSystem;

fn bits(u: f32, v: f32) -> (u32, u32) {
    (u.to_bits(), v.to_bits())
}

fn numbers(cell: (u32, u32)) -> (f32, f32) {
    (f32::from_bits(cell.0), f32::from_bits(cell.1))
}

fn system(width: usize, height: usize) -> ReactionDiffusionSystem {
    assert!(ReactionDiffusionSystem::can_hold(width, height));
    ReactionDiffusionSystem::new(
        width,
        height,
        0.026f32.to_bits(),
        0.051f32.to_bits(),
        1.0f32.to_bits(),
        0.5f32.to_bits(),
    )
}

#[test]
fn a_new_system_is_at_rest() {
    let sys = system(3, 4);
    assert_eq!(sys.width(), 3);
    assert_eq!(sys.height(), 4);
    assert_eq!(sys.uvs().len(), 12);
    for cell in sys.uvs() {
        assert_eq!(numbers(*cell), (1.0, 0.0));
    }
    assert_eq!(sys.rates(), (0.026f32.to_bits(), 0.051f32.to_bits()));
    assert_eq!(sys.current_buffer(), 0);
    assert_eq!(sys.readback_buffer(), 0);
    assert_eq!(sys.nutrient_pattern(), (0, false));
    assert_eq!(
        sys.params(),
        SimulationParams {
            feed_rate: 0.026f32.to_bits(),
            kill_rate: 0.051f32.to_bits(),
            delta_u: 1.0f32.to_bits(),
            delta_v: 0.5f32.to_bits(),
            width: 3,
            height: 4,
        }
    );
}

#[test]
fn an_empty_grid_has_no_cells() {
    let sys = system(0, 7);
    assert_eq!(sys.uvs().len(), 0);
    assert!(!sys.addresses(0, 0));
    assert_eq!(sys.field_byte_size(), 0);
}

#[test]
fn can_hold_is_the_limit_of_new() {
    assert!(ReactionDiffusionSystem::can_hold(0, 0));
    assert!(ReactionDiffusionSystem::can_hold(1920, 1080));
    assert!(!ReactionDiffusionSystem::can_hold(usize::MAX, 1));
    assert!(!ReactionDiffusionSystem::can_hold(1, usize::MAX));
    let side = 1usize << (usize::BITS / 2);
    assert!(!ReactionDiffusionSystem::can_hold(side, side));
    let most = isize::MAX as usize / UV_PAIR_BYTES;
    assert!(ReactionDiffusionSystem::can_hold(most, 1));
    assert!(!ReactionDiffusionSystem::can_hold(most + 1, 1));
}

#[test]
fn set_writes_one_cell_clamped() {
    let mut sys = system(3, 4);
    sys.set(1, 2, bits(0.5, 2.0));
    assert_eq!(numbers(sys.get(1, 2)), (0.5, 1.0));
    assert_eq!(numbers(sys.get_by_index(7)), (0.5, 1.0));
    assert_eq!(sys.get_index(1, 2), 7);
    sys.set(-2, -2, bits(-7.0, -0.25));
    assert_eq!(sys.get(1, 2), (MINUS_ONE, (-0.25f32).to_bits()));
    for (i, cell) in sys.uvs().iter().enumerate() {
        if i != 7 {
            assert_eq!(*cell, (ONE, ZERO));
        }
    }
    // the same cell through the wrap-around
    assert_eq!(sys.get(4, 6), sys.get(1, 2));
    assert_eq!(sys.get(-2456, 562), sys.get_by_index(4));
}

#[test]
fn set_replaces_what_is_not_a_number() {
    let mut sys = system(2, 2);
    sys.set(0, 0, (f32::NAN.to_bits(), f32::INFINITY.to_bits()));
    assert_eq!(sys.get(0, 0), (MINUS_ONE, ONE));
}

#[test]
fn addresses_tells_which_coordinates_have_a_cell() {
    let sys = system(3, 4);
    assert!(sys.addresses(0, 0));
    assert!(sys.addresses(-3, -4));
    assert!(sys.addresses(100, 100));
    assert!(sys.addresses(-2456, 562));
    assert!(!sys.addresses(-5, 0));
    assert!(!sys.addresses(0, -5));
}

#[test]
fn set_all_then_uvs_gives_the_values_clamped() {
    let mut sys = system(3, 2);
    let values = vec![
        bits(0.0, 0.0),
        bits(0.25, -0.75),
        bits(1.5, -1.5),
        bits(-1.0, 1.0),
        bits(f32::INFINITY, f32::NEG_INFINITY),
        bits(0.999, 1.001),
    ];
    sys.set_all(&values);
    let expected = vec![
        bits(0.0, 0.0),
        bits(0.25, -0.75),
        bits(1.0, -1.0),
        bits(-1.0, 1.0),
        bits(1.0, -1.0),
        bits(0.999, 1.0),
    ];
    assert_eq!(sys.uvs(), expected.as_slice());
    // values in range come back exactly
    let in_range = vec![
        bits(0.1, 0.2),
        bits(0.3, 0.4),
        bits(-0.5, 0.6),
        bits(0.7, -0.8),
        bits(0.9, 1.0),
        bits(-1.0, -0.0),
    ];
    sys.set_all(&in_range);
    assert_eq!(sys.uvs(), in_range.as_slice());
    assert_eq!(sys.width(), 3);
    assert_eq!(sys.height(), 2);
}

#[test]
fn store_readback_takes_a_generation_in() {
    let mut sys = system(2, 1);
    sys.store_readback(&[bits(0.5, 0.25), bits(3.0, -3.0)]);
    assert_eq!(sys.uvs(), &[bits(0.5, 0.25), bits(1.0, -1.0)]);
}

#[test]
fn clear_screen_puts_the_field_to_rest() {
    let mut sys = system(3, 3);
    sys.set(1, 1, bits(0.5, 0.9));
    sys.update_rates(0.03f32.to_bits(), 0.06f32.to_bits());
    sys.clear_screen();
    assert_eq!(sys.uvs().len(), 9);
    for cell in sys.uvs() {
        assert_eq!(*cell, (ONE, ZERO));
    }
    assert_eq!(sys.rates(), (0.03f32.to_bits(), 0.06f32.to_bits()));
}

#[test]
fn update_flips_the_buffers_and_leaves_the_field() {
    let mut sys = system(20, 9);
    sys.set(3, 3, bits(0.5, 0.25));
    let before: Vec<(u32, u32)> = sys.uvs().to_vec();
    let first = sys.update();
    assert_eq!(
        first,
        Dispatch {
            bind_group: 0,
            workgroups_x: 3,
            workgroups_y: 2,
            workgroups_z: 1,
        }
    );
    assert_eq!(sys.current_buffer(), 1);
    // what the pass wrote is what is read back
    assert_eq!(sys.readback_buffer(), 1);
    let second = sys.update();
    assert_eq!(second.bind_group, 1);
    assert_eq!(sys.current_buffer(), 0);
    assert_eq!(sys.readback_buffer(), 0);
    assert_eq!(sys.uvs(), before.as_slice());
}

#[test]
fn workgroups_cover_the_cells() {
    assert_eq!(workgroup_count(0), 0);
    assert_eq!(workgroup_count(1), 1);
    assert_eq!(workgroup_count(8), 1);
    assert_eq!(workgroup_count(9), 2);
    assert_eq!(workgroup_count(1920), 240);
    assert_eq!(workgroup_count(1081), 136);
    assert_eq!(workgroup_count(u32::MAX as usize), 536_870_912);
}

#[test]
fn bind_groups_read_their_own_buffer_and_write_the_other() {
    assert_eq!(bind_group_buffers(0), (0, 1));
    assert_eq!(bind_group_buffers(1), (1, 0));
}

#[test]
fn update_rates_takes_effect_without_touching_the_field() {
    let mut sys = system(4, 4);
    sys.set(2, 2, bits(0.5, 0.25));
    let before: Vec<(u32, u32)> = sys.uvs().to_vec();
    sys.update();
    let update = sys.update_rates(0.0545f32.to_bits(), 0.062f32.to_bits());
    assert_eq!(update.params.feed_rate, 0.0545f32.to_bits());
    assert_eq!(update.params.kill_rate, 0.062f32.to_bits());
    assert_eq!(update.params.delta_u, 1.0f32.to_bits());
    assert_eq!(update.params.delta_v, 0.5f32.to_bits());
    assert_eq!(update.params.width, 4);
    assert_eq!(update.params.height, 4);
    assert_eq!(update.bind_group, 1);
    assert_eq!(update.input_buffer, 1);
    assert_eq!(update.output_buffer, 0);
    assert_eq!(sys.rates(), (0.0545f32.to_bits(), 0.062f32.to_bits()));
    assert_eq!(sys.params(), update.params);
    assert_eq!(sys.uvs(), before.as_slice());
    assert_eq!(sys.current_buffer(), 1);
}

#[test]
fn nutrient_pattern_is_set_and_toggled() {
    let mut sys = system(2, 2);
    sys.set_nutrient_pattern(3, false);
    assert_eq!(sys.nutrient_pattern(), (3, false));
    sys.toggle_nutrient_pattern_reversal();
    assert_eq!(sys.nutrient_pattern(), (3, true));
    sys.toggle_nutrient_pattern_reversal();
    assert_eq!(sys.nutrient_pattern(), (3, false));
    sys.set_nutrient_pattern(8, true);
    assert_eq!(sys.nutrient_pattern(), (8, true));
}

#[test]
fn byte_sizes_count_eight_bytes_a_cell() {
    let sys = system(5, 3);
    assert_eq!(sys.field_byte_size(), 120);
    assert_eq!(sys.cell_byte_offset(0), 0);
    assert_eq!(sys.cell_byte_offset(7), 56);
    assert_eq!(sys.cell_byte_offset(14), 112);
}
