use gray_scott_reaction_diffusion::lut_manager::{LutError, LutManager};
use gray_scott_reaction_diffusion::renderer::{Renderer, TextureLayout};
use gray_scott_reaction_diffusion::LutData;

fn ramp_file() -> Vec<u8> {
    let mut bytes = Vec::new();
    for i in 0..256u32 {
        bytes.push(i as u8);
    }
    for i in 0..256u32 {
        bytes.push((255 - i) as u8);
    }
    for i in 0..256u32 {
        bytes.push((i * 7 % 256) as u8);
    }
    bytes
}

#[test]
fn a_new_registry_is_empty() {
    let manager = LutManager::new();
    assert_eq!(manager.len(), 0);
    assert!(manager.get_available_luts().is_empty());
    assert_eq!(manager.load_lut("anything").err(), Some(LutError::NotFound));
    let other = LutManager::default();
    assert_eq!(other.len(), 0);
}

#[test]
fn load_splits_a_file_into_its_channels() {
    let mut manager = LutManager::new();
    manager.register("ramp", ramp_file());
    let lut = manager.load_lut("ramp").unwrap();
    assert_eq!(lut.name, "ramp");
    assert_eq!(lut.red.len(), 256);
    assert_eq!(lut.green.len(), 256);
    assert_eq!(lut.blue.len(), 256);
    assert!(lut.is_complete());
    for i in 0..256usize {
        assert_eq!(lut.red[i], i as u8);
        assert_eq!(lut.green[i], (255 - i) as u8);
        assert_eq!(lut.blue[i], (i * 7 % 256) as u8);
    }
    let again = manager.load_lut_at(0).unwrap();
    assert_eq!(again.name, "ramp");
    assert_eq!(again.red, lut.red);
    assert_eq!(again.green, lut.green);
    assert_eq!(again.blue, lut.blue);
}

#[test]
fn load_fails_for_an_unknown_name() {
    let mut manager = LutManager::new();
    manager.register("ramp", ramp_file());
    assert_eq!(manager.load_lut("Ramp").err(), Some(LutError::NotFound));
    assert_eq!(manager.load_lut("").err(), Some(LutError::NotFound));
    assert_eq!(manager.position("Ramp"), None);
    assert_eq!(manager.position("ramp"), Some(0));
}

#[test]
fn load_fails_for_a_file_of_another_size() {
    let mut manager = LutManager::new();
    manager.register("short", vec![0u8; 767]);
    manager.register("long", vec![0u8; 769]);
    manager.register("empty", Vec::new());
    manager.register("right", vec![9u8; 768]);
    assert_eq!(manager.load_lut("short").err(), Some(LutError::InvalidData));
    assert_eq!(manager.load_lut("long").err(), Some(LutError::InvalidData));
    assert_eq!(manager.load_lut("empty").err(), Some(LutError::InvalidData));
    assert_eq!(manager.load_lut_at(0).err(), Some(LutError::InvalidData));
    assert!(manager.load_lut("right").is_ok());
    assert!(manager.load_lut_at(3).is_ok());
}

#[test]
fn names_come_in_the_order_of_registration() {
    let mut manager = LutManager::new();
    manager.register("b", vec![1u8; 768]);
    manager.register("a", vec![2u8; 768]);
    manager.register("c", vec![3u8; 768]);
    assert_eq!(manager.get_available_luts(), vec!["b", "a", "c"]);
    // a name that is registered again keeps its place and gets the new file
    manager.register("a", vec![4u8; 768]);
    assert_eq!(manager.get_available_luts(), vec!["b", "a", "c"]);
    assert_eq!(manager.len(), 3);
    assert_eq!(manager.load_lut("a").unwrap().red[0], 4);
    assert_eq!(manager.load_lut("b").unwrap().red[0], 1);
    assert_eq!(manager.position("c"), Some(2));
}

#[test]
fn error_messages_name_the_table() {
    assert_eq!(LutError::NotFound.message("jet"), "LUT 'jet' not found");
    assert_eq!(LutError::InvalidData.message("jet"), "Invalid LUT file size");
}

#[test]
fn reverse_reverses_each_channel_in_place() {
    let mut lut = LutData {
        name: "odd".to_string(),
        red: vec![1, 2, 3],
        green: vec![4, 5, 6, 7],
        blue: vec![],
    };
    lut.reverse();
    assert_eq!(lut.name, "odd");
    assert_eq!(lut.red, vec![3, 2, 1]);
    assert_eq!(lut.green, vec![7, 6, 5, 4]);
    assert_eq!(lut.blue, Vec::<u8>::new());
    assert!(!lut.is_complete());

    let mut manager = LutManager::new();
    manager.register("ramp", ramp_file());
    let mut ramp = manager.load_lut("ramp").unwrap();
    let before = ramp.clone();
    ramp.reverse();
    for i in 0..256usize {
        assert_eq!(ramp.red[i], before.red[255 - i]);
        assert_eq!(ramp.green[i], before.green[255 - i]);
        assert_eq!(ramp.blue[i], before.blue[255 - i]);
    }
    ramp.reverse();
    assert_eq!(ramp.red, before.red);
    assert_eq!(ramp.green, before.green);
    assert_eq!(ramp.blue, before.blue);
}

#[test]
fn clone_copies_a_table() {
    let lut = LutData {
        name: "n".to_string(),
        red: vec![1, 2],
        green: vec![3],
        blue: vec![4, 5, 6],
    };
    let copy = lut.clone();
    assert_eq!(copy.name, "n");
    assert_eq!(copy.red, vec![1, 2]);
    assert_eq!(copy.green, vec![3]);
    assert_eq!(copy.blue, vec![4, 5, 6]);
}

#[test]
fn the_display_gets_a_table_as_768_words() {
    let mut manager = LutManager::new();
    manager.register("ramp", ramp_file());
    let lut = manager.load_lut("ramp").unwrap();
    let renderer = Renderer::new(800, 600, 80, 60);
    let words = renderer.update_lut(&lut);
    assert_eq!(words.len(), 768);
    for i in 0..256usize {
        assert_eq!(words[i], lut.red[i] as u32);
        assert_eq!(words[i + 256], lut.green[i] as u32);
        assert_eq!(words[i + 512], lut.blue[i] as u32);
    }
}

#[test]
fn the_display_gets_the_field_as_interleaved_words() {
    let renderer = Renderer::new(800, 600, 2, 2);
    let uvs = [(1u32, 2u32), (3, 4), (5, 6), (7, 8)];
    let (data, layout) = renderer.update_texture(&uvs).unwrap();
    assert_eq!(data, vec![1, 2, 3, 4, 5, 6, 7, 8]);
    assert_eq!(
        layout,
        TextureLayout {
            bytes_per_row: 16,
            rows_per_image: 2,
            width: 2,
            height: 2,
        }
    );
    let (none, _) = renderer.update_texture(&[]).unwrap();
    assert!(none.is_empty());
    let wide = Renderer::new(800, 600, u32::MAX / 8 + 1, 1);
    assert!(wide.update_texture(&uvs).is_none());
    let widest = Renderer::new(800, 600, u32::MAX / 8, 1);
    assert_eq!(
        widest.update_texture(&uvs).unwrap().1.bytes_per_row,
        u32::MAX / 8 * 8
    );
}

#[test]
fn the_reversed_flag_is_one_or_zero() {
    let mut renderer = Renderer::new(800, 600, 80, 60);
    assert!(!renderer.is_lut_reversed());
    assert_eq!(renderer.set_lut_reversed(true), 1);
    assert!(renderer.is_lut_reversed());
    assert_eq!(renderer.set_lut_reversed(false), 0);
    assert!(!renderer.is_lut_reversed());
}

#[test]
fn resize_takes_sizes_with_two_sides() {
    let mut renderer = Renderer::new(800, 600, 80, 60);
    assert_eq!(renderer.surface_size(), (800, 600));
    assert_eq!(renderer.simulation_size(), (80, 60));
    assert!(renderer.resize(1024, 768));
    assert_eq!(renderer.surface_size(), (1024, 768));
    assert!(!renderer.resize(0, 768));
    assert!(!renderer.resize(1024, 0));
    assert_eq!(renderer.surface_size(), (1024, 768));
    assert_eq!(renderer.simulation_size(), (80, 60));
}
