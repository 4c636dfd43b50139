//! The table of demos that the program can run: each demo's name and
//! description, and the lookup that picks a demo by name.

use vstd::prelude::*;

use crate::strutil::str_eq;

verus! {

/// What every demo tells about itself.
pub trait Demo {
    /// The name, as a sequence of characters.
    spec fn spec_name(&self) -> Seq<char>;

    /// The description, as a sequence of characters.
    spec fn spec_description(&self) -> Seq<char>;

    /// The demo's name, as given on the command line.
    fn name(&self) -> (r: String)
        ensures
            r@ == self.spec_name(),
    ;

    /// A line describing what the demo shows.
    fn description(&self) -> (r: String)
        ensures
            r@ == self.spec_description(),
    ;
}

/// The second demo: textures.
pub struct Demo2 {
    pub name: &'static str,
    pub description: &'static str,
}

impl Demo for Demo2 {
    open spec fn spec_name(&self) -> Seq<char> {
        self.name@
    }

    open spec fn spec_description(&self) -> Seq<char> {
        self.description@
    }

    fn name(&self) -> (r: String) {
        self.name.to_owned()
    }

    fn description(&self) -> (r: String) {
        self.description.to_owned()
    }
}

/// The third demo: advanced texturing.
pub struct Demo3 {
    pub name: &'static str,
    pub description: &'static str,
}

impl Demo for Demo3 {
    open spec fn spec_name(&self) -> Seq<char> {
        self.name@
    }

    open spec fn spec_description(&self) -> Seq<char> {
        self.description@
    }

    fn name(&self) -> (r: String) {
        self.name.to_owned()
    }

    fn description(&self) -> (r: String) {
        self.description.to_owned()
    }
}

/// One row of the demo table.
pub struct DemoInfo {
    pub name: &'static str,
    pub description: &'static str,
}

/// The name of the demo at position `i` of the table.
pub open spec fn demo_name(i: int) -> Seq<char> {
    if i == 0 {
        "demo1"@
    } else if i == 1 {
        "demo2"@
    } else if i == 2 {
        "demo3"@
    } else if i == 3 {
        "demo4"@
    } else if i == 4 {
        "demo5"@
    } else if i == 5 {
        "demo6"@
    } else if i == 6 {
        "demo7"@
    } else if i == 7 {
        "demo8"@
    } else if i == 8 {
        "demo9"@
    } else if i == 9 {
        "demo10"@
    } else if i == 10 {
        "demo11"@
    } else if i == 11 {
        "demo12"@
    } else if i == 12 {
        "demo13"@
    } else if i == 13 {
        "demo14"@
    } else if i == 14 {
        "demo15"@
    } else if i == 15 {
        "demo16"@
    } else if i == 16 {
        "demo17"@
    } else if i == 17 {
        "demo18"@
    } else if i == 18 {
        "demo19"@
    } else {
        "demo20"@
    }
}

/// The description of the demo at position `i` of the table.
pub open spec fn demo_description(i: int) -> Seq<char> {
    if i == 0 {
        "Learn OpenGL - Graphics Programming ('Getting started'): triangles, shaders"@
    } else if i == 1 {
        "Learn OpenGL - Graphics Programming ('Getting started'): textures"@
    } else if i == 2 {
        "Learn OpenGL - Graphics Programming ('Getting started'): textures - advanced"@
    } else if i == 3 {
        "Learn OpenGL - Graphics Programming ('Getting started'): transformations"@
    } else if i == 4 {
        "Learn OpenGL - Graphics Programming ('Getting started'): moving camera"@
    } else if i == 5 {
        "Learn OpenGL - Graphics Programming ('Lighting'): lighting"@
    } else if i == 6 {
        "Learn OpenGL - Graphics Programming ('Lighting'): lighting Phong"@
    } else if i == 7 {
        "Learn OpenGL - Graphics Programming ('Lighting'): lighting - materials"@
    } else if i == 8 {
        "Learn OpenGL - Graphics Programming ('Lighting'): lighting maps"@
    } else if i == 9 {
        "Learn OpenGL - Graphics Programming ('Lighting'): directional light"@
    } else if i == 10 {
        "Learn OpenGL - Graphics Programming ('Lighting'): point lights"@
    } else if i == 11 {
        "Learn OpenGL - Graphics Programming ('Lighting'): SpotLight"@
    } else if i == 12 {
        "Learn OpenGL - Graphics Programming ('Lighting'): multiple lights"@
    } else if i == 13 {
        "Learn OpenGL - Graphics Programming ('Model Loading'): models and meshes"@
    } else if i == 14 {
        "Learn OpenGL - Graphics Programming ('Advanced OpenGL'): depth testing, stencil testing, blending and face culling"@
    } else if i == 15 {
        "Learn OpenGL - Graphics Programming ('Advanced OpenGL'): framebuffers and kernel effects"@
    } else if i == 16 {
        "Learn OpenGL - Graphics Programming ('Advanced OpenGL'): cubemaps and environment mappings"@
    } else if i == 17 {
        "Learn OpenGL - Graphics Programming ('Advanced OpenGL'): geometry shaders"@
    } else if i == 18 {
        "Learn OpenGL - Graphics Programming ('Advanced OpenGL'): instancing"@
    } else {
        "Learn OpenGL - Graphics Programming ('Advanced Lighting'): shadow mapping"@
    }
}

/// Whether a table row holds the name and description owed at position `i`.
pub open spec fn demo_entry_ok(d: DemoInfo, i: int) -> bool {
    d.name@ == demo_name(i) && d.description@ == demo_description(i)
}

/// The demo table, in the order the demos were written.
pub fn get_all_demos() -> (r: Vec<DemoInfo>)
    ensures
        r@.len() == 20,
        forall|i: int| 0 <= i < 20 ==> #[trigger] demo_entry_ok(r@[i], i),
{
    let mut v: Vec<DemoInfo> = Vec::new();
    v.push(DemoInfo {
        name: "demo1",
        description: "Learn OpenGL - Graphics Programming ('Getting started'): triangles, shaders",
    });
    v.push(DemoInfo {
        name: "demo2",
        description: "Learn OpenGL - Graphics Programming ('Getting started'): textures",
    });
    v.push(DemoInfo {
        name: "demo3",
        description: "Learn OpenGL - Graphics Programming ('Getting started'): textures - advanced",
    });
    v.push(DemoInfo {
        name: "demo4",
        description: "Learn OpenGL - Graphics Programming ('Getting started'): transformations",
    });
    v.push(DemoInfo {
        name: "demo5",
        description: "Learn OpenGL - Graphics Programming ('Getting started'): moving camera",
    });
    v.push(DemoInfo {
        name: "demo6",
        description: "Learn OpenGL - Graphics Programming ('Lighting'): lighting",
    });
    v.push(DemoInfo {
        name: "demo7",
        description: "Learn OpenGL - Graphics Programming ('Lighting'): lighting Phong",
    });
    v.push(DemoInfo {
        name: "demo8",
        description: "Learn OpenGL - Graphics Programming ('Lighting'): lighting - materials",
    });
    v.push(DemoInfo {
        name: "demo9",
        description: "Learn OpenGL - Graphics Programming ('Lighting'): lighting maps",
    });
    v.push(DemoInfo {
        name: "demo10",
        description: "Learn OpenGL - Graphics Programming ('Lighting'): directional light",
    });
    v.push(DemoInfo {
        name: "demo11",
        description: "Learn OpenGL - Graphics Programming ('Lighting'): point lights",
    });
    v.push(DemoInfo {
        name: "demo12",
        description: "Learn OpenGL - Graphics Programming ('Lighting'): SpotLight",
    });
    v.push(DemoInfo {
        name: "demo13",
        description: "Learn OpenGL - Graphics Programming ('Lighting'): multiple lights",
    });
    v.push(DemoInfo {
        name: "demo14",
        description: "Learn OpenGL - Graphics Programming ('Model Loading'): models and meshes",
    });
    v.push(DemoInfo {
        name: "demo15",
        description: "Learn OpenGL - Graphics Programming ('Advanced OpenGL'): depth testing, stencil testing, blending and face culling",
    });
    v.push(DemoInfo {
        name: "demo16",
        description: "Learn OpenGL - Graphics Programming ('Advanced OpenGL'): framebuffers and kernel effects",
    });
    v.push(DemoInfo {
        name: "demo17",
        description: "Learn OpenGL - Graphics Programming ('Advanced OpenGL'): cubemaps and environment mappings",
    });
    v.push(DemoInfo {
        name: "demo18",
        description: "Learn OpenGL - Graphics Programming ('Advanced OpenGL'): geometry shaders",
    });
    v.push(DemoInfo {
        name: "demo19",
        description: "Learn OpenGL - Graphics Programming ('Advanced OpenGL'): instancing",
    });
    v.push(DemoInfo {
        name: "demo20",
        description: "Learn OpenGL - Graphics Programming ('Advanced Lighting'): shadow mapping",
    });
    proof {
        assert forall|i: int| 0 <= i < 20 implies #[trigger] demo_entry_ok(v@[i], i) by {
            assert(demo_entry_ok(v@[0], 0));
            assert(demo_entry_ok(v@[1], 1));
            assert(demo_entry_ok(v@[2], 2));
            assert(demo_entry_ok(v@[3], 3));
            assert(demo_entry_ok(v@[4], 4));
            assert(demo_entry_ok(v@[5], 5));
            assert(demo_entry_ok(v@[6], 6));
            assert(demo_entry_ok(v@[7], 7));
            assert(demo_entry_ok(v@[8], 8));
            assert(demo_entry_ok(v@[9], 9));
            assert(demo_entry_ok(v@[10], 10));
            assert(demo_entry_ok(v@[11], 11));
            assert(demo_entry_ok(v@[12], 12));
            assert(demo_entry_ok(v@[13], 13));
            assert(demo_entry_ok(v@[14], 14));
            assert(demo_entry_ok(v@[15], 15));
            assert(demo_entry_ok(v@[16], 16));
            assert(demo_entry_ok(v@[17], 17));
            assert(demo_entry_ok(v@[18], 18));
            assert(demo_entry_ok(v@[19], 19));
        }
    }
    v
}

/// Picks the first demo of the table whose name is `selected`; `None` when
/// no demo is called that.
pub fn find_demo(demos: &Vec<DemoInfo>, selected: &str) -> (r: Option<usize>)
    ensures
        match r {
            Some(i) => i < demos@.len() && demos@[i as int].name@ == selected@ && forall|j: int|
                0 <= j < i ==> demos@[j].name@ != selected@,
            None => forall|j: int| 0 <= j < demos@.len() ==> demos@[j].name@ != selected@,
        },
{
    let n = demos.len();
    for i in 0..n
        invariant
            n == demos@.len(),
            forall|j: int| 0 <= j < i ==> demos@[j].name@ != selected@,
    {
        if str_eq(demos[i].name, selected) {
            return Some(i);
        }
    }
    None
}

} // verus!
