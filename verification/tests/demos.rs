use open_gl::demos::find_demo;
use open_gl::demos::DemoInfo;
use open_gl::demos::get_all_demos;
use open_gl::demos::Demo;
use open_gl::demos::Demo2;
use open_gl::demos::Demo3;

#[test]
fn the_table_has_twenty_demos() {
    let demos = get_all_demos();
    assert_eq!(demos.len(), 20);
}

#[test]
fn the_table_is_in_order() {
    let demos = get_all_demos();
    assert_eq!(demos[0].name, "demo1");
    assert_eq!(demos[1].name, "demo2");
    assert_eq!(demos[14].name, "demo15");
    assert_eq!(demos[19].name, "demo20");
}

#[test]
fn the_descriptions_match_the_demos() {
    let demos = get_all_demos();
    assert_eq!(
        demos[0].description,
        "Learn OpenGL - Graphics Programming ('Getting started'): triangles, shaders"
    );
    assert_eq!(
        demos[19].description,
        "Learn OpenGL - Graphics Programming ('Advanced Lighting'): shadow mapping"
    );
}

#[test]
fn find_demo_finds_each_entry() {
    let demos = get_all_demos();
    assert_eq!(find_demo(&demos, "demo1"), Some(0));
    assert_eq!(find_demo(&demos, "demo9"), Some(8));
    assert_eq!(find_demo(&demos, "demo10"), Some(9));
    assert_eq!(find_demo(&demos, "demo20"), Some(19));
}

#[test]
fn find_demo_rejects_unknown_names() {
    let demos = get_all_demos();
    assert_eq!(find_demo(&demos, "demo21"), None);
    assert_eq!(find_demo(&demos, "demo"), None);
    assert_eq!(find_demo(&demos, ""), None);
    assert_eq!(find_demo(&demos, "Demo1"), None);
}

#[test]
fn find_demo_on_an_empty_table() {
    assert_eq!(find_demo(&vec![], "demo1"), None);
}

#[test]
fn demo2_tells_its_name_and_description() {
    let d = Demo2 {
        name: "demo2",
        description: "Learn OpenGL - Graphics Programming ('Getting started'): textures",
    };
    assert_eq!(d.name(), "demo2");
    assert_eq!(
        d.description(),
        "Learn OpenGL - Graphics Programming ('Getting started'): textures"
    );
}

#[test]
fn demo3_tells_its_name_and_description() {
    let d = Demo3 {
        name: "demo3",
        description: "Learn OpenGL - Graphics Programming ('Getting started'): textures - advanced",
    };
    assert_eq!(d.name(), "demo3");
    assert_eq!(
        d.description(),
        "Learn OpenGL - Graphics Programming ('Getting started'): textures - advanced"
    );
}

#[test]
fn find_demo_picks_the_first_of_equal_names() {
    let table = vec![
        DemoInfo { name: "a", description: "first" },
        DemoInfo { name: "b", description: "second" },
        DemoInfo { name: "a", description: "third" },
    ];
    assert_eq!(find_demo(&table, "a"), Some(0));
    assert_eq!(find_demo(&table, "b"), Some(1));
}
