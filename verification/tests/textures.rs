use open_gl::textures::format_for_depth;
use open_gl::textures::texture_uniform_names;
use open_gl::textures::uniform_name;
use open_gl::textures::PixelFormat;
use open_gl::textures::TexType;

#[test]
fn one_channel_is_red() {
    assert_eq!(format_for_depth(1), PixelFormat::Red);
}

#[test]
fn three_channels_are_rgb() {
    assert_eq!(format_for_depth(3), PixelFormat::Rgb);
}

#[test]
fn four_channels_are_rgba() {
    assert_eq!(format_for_depth(4), PixelFormat::Rgba);
}

#[test]
fn other_depths_fall_back_to_rgb() {
    assert_eq!(format_for_depth(0), PixelFormat::Rgb);
    assert_eq!(format_for_depth(2), PixelFormat::Rgb);
    assert_eq!(format_for_depth(5), PixelFormat::Rgb);
}

#[test]
fn the_default_role_is_diffuse() {
    assert_eq!(TexType::default(), TexType::Diffuse);
}

#[test]
fn uniform_names_carry_the_ordinal() {
    assert_eq!(uniform_name(TexType::Diffuse, 1), "texture_diffuse1");
    assert_eq!(uniform_name(TexType::Specular, 12), "texture_specular12");
}

#[test]
fn each_role_is_numbered_separately() {
    let types = vec![
        TexType::Diffuse,
        TexType::Diffuse,
        TexType::Specular,
        TexType::Diffuse,
        TexType::Specular,
    ];
    let names = texture_uniform_names(&types);
    assert_eq!(
        names,
        vec![
            "texture_diffuse1".to_string(),
            "texture_diffuse2".to_string(),
            "texture_specular1".to_string(),
            "texture_diffuse3".to_string(),
            "texture_specular2".to_string(),
        ]
    );
}

#[test]
fn no_textures_no_names() {
    let names = texture_uniform_names(&vec![]);
    assert!(names.is_empty());
}

#[test]
fn ten_diffuse_textures_reach_two_digits() {
    let types = vec![TexType::Diffuse; 10];
    let names = texture_uniform_names(&types);
    assert_eq!(names[9], "texture_diffuse10");
}

#[test]
fn an_empty_cache_knows_nothing() {
    let cache = open_gl::textures::TextureCache::new();
    assert_eq!(cache.lookup("demo/container.jpg"), None);
}

#[test]
fn a_stored_id_is_found_again() {
    let mut cache = open_gl::textures::TextureCache::new();
    cache.insert("demo/container.jpg", 7);
    cache.insert("demo/awesomeface.png", 9);
    assert_eq!(cache.lookup("demo/container.jpg"), Some(7));
    assert_eq!(cache.lookup("demo/awesomeface.png"), Some(9));
    assert_eq!(cache.lookup("demo/marble.jpg"), None);
}

#[test]
fn names_are_compared_whole() {
    let mut cache = open_gl::textures::TextureCache::new();
    cache.insert("wall.png", 3);
    assert_eq!(cache.lookup("wall.pn"), None);
    assert_eq!(cache.lookup("wall.pngg"), None);
}
