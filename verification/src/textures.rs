//! The texture bookkeeping that model drawing needs: choosing a pixel
//! format for an image's bit depth, and numbering the sampler uniforms
//! that a mesh's textures are bound to.

use vstd::prelude::*;
use vstd::string::StringExecFns;

use crate::decimal::dec_chars;
use crate::decimal::u64_to_decimal;
use crate::strutil::str_eq;

verus! {

/// The role of a texture in a material.
#[derive(Clone, Copy, Debug, PartialEq, Eq)]
pub enum TexType {
    Diffuse,
    Specular,
}

impl Default for TexType {
    fn default() -> (r: Self)
        ensures
            r == TexType::Diffuse,
    {
        TexType::Diffuse
    }
}

/// The pixel layout that an image's channel count calls for.
#[derive(Clone, Copy, Debug, PartialEq, Eq)]
pub enum PixelFormat {
    Red,
    Rgb,
    Rgba,
}

/// The pixel format for an image with `depth` channels: one channel is a
/// single red channel, three are RGB, four are RGBA, and anything else is
/// treated as RGB.
pub open spec fn spec_format_for_depth(depth: usize) -> PixelFormat {
    if depth == 1 {
        PixelFormat::Red
    } else if depth == 4 {
        PixelFormat::Rgba
    } else {
        PixelFormat::Rgb
    }
}

/// Picks the pixel format for an image with `depth` channels.
pub fn format_for_depth(depth: usize) -> (r: PixelFormat)
    ensures
        r == spec_format_for_depth(depth),
{
    if depth == 1 {
        PixelFormat::Red
    } else if depth == 3 {
        PixelFormat::Rgb
    } else if depth == 4 {
        PixelFormat::Rgba
    } else {
        PixelFormat::Rgb
    }
}

/// The uniform-name prefix of a texture role.
pub open spec fn tex_prefix(t: TexType) -> Seq<char> {
    match t {
        TexType::Diffuse => "texture_diffuse"@,
        TexType::Specular => "texture_specular"@,
    }
}

/// How many of the first `upto` entries of `ts` have the role `t`.
pub open spec fn count_type(ts: Seq<TexType>, t: TexType, upto: int) -> nat
    decreases upto,
{
    if upto <= 0 {
        0
    } else {
        count_type(ts, t, upto - 1) + (if ts[upto - 1] == t {
            1nat
        } else {
            0nat
        })
    }
}

/// The sampler uniform name owed to position `i` of the texture list: the
/// role's prefix, then how many textures of that role have appeared so far,
/// counting from 1.
pub open spec fn uniform_name_at(ts: Seq<TexType>, i: int) -> Seq<char> {
    tex_prefix(ts[i]) + dec_chars(count_type(ts, ts[i], i) + 1)
}

/// Builds the sampler uniform name of a texture role and its ordinal.
pub fn uniform_name(t: TexType, ordinal: u64) -> (r: String)
    ensures
        r@ == tex_prefix(t) + dec_chars(ordinal as nat),
{
    let mut s = (match t {
        TexType::Diffuse => "texture_diffuse",
        TexType::Specular => "texture_specular",
    }).to_owned();
    s.append(u64_to_decimal(ordinal).as_str());
    s
}

/// The sampler uniform names for a mesh's textures, in order: diffuse
/// textures are named `texture_diffuse1`, `texture_diffuse2`, ... as they
/// appear, and specular textures likewise.
pub fn texture_uniform_names(types: &Vec<TexType>) -> (r: Vec<String>)
    requires
        types@.len() < u64::MAX,
    ensures
        r@.len() == types@.len(),
        forall|i: int| 0 <= i < types@.len() ==> #[trigger] r@[i]@ == uniform_name_at(types@, i),
{
    let mut out: Vec<String> = Vec::new();
    let mut diffuse_nr: u64 = 1;
    let mut specular_nr: u64 = 1;
    let n = types.len();
    for i in 0..n
        invariant
            n == types@.len(),
            n < u64::MAX,
            out@.len() == i,
            diffuse_nr == count_type(types@, TexType::Diffuse, i as int) + 1,
            specular_nr == count_type(types@, TexType::Specular, i as int) + 1,
            diffuse_nr <= i + 1,
            specular_nr <= i + 1,
            forall|j: int| 0 <= j < i ==> #[trigger] out@[j]@ == uniform_name_at(types@, j),
    {
        match types[i] {
            TexType::Diffuse => {
                out.push(uniform_name(TexType::Diffuse, diffuse_nr));
                diffuse_nr = diffuse_nr + 1;
            },
            TexType::Specular => {
                out.push(uniform_name(TexType::Specular, specular_nr));
                specular_nr = specular_nr + 1;
            },
        }
    }
    out
}

/// Remembers which texture files were already handed to the renderer, so
/// that each file is loaded once and its id reused.
pub struct TextureCache {
    entries: Vec<(String, u32)>,
}

impl TextureCache {
    /// The cache's contents: file name and texture id, in insertion order.
    pub closed spec fn entries(&self) -> Seq<(Seq<char>, u32)> {
        self.entries@.map(|_i: int, e: (String, u32)| (e.0@, e.1))
    }

    /// Each file name appears at most once.
    pub open spec fn wf(&self) -> bool {
        forall|i: int, j: int|
            0 <= i < j < self.entries().len() ==> (#[trigger] self.entries()[i]).0 != (
            #[trigger] self.entries()[j]).0
    }

    /// An empty cache.
    pub fn new() -> (r: Self)
        ensures
            r.wf(),
            r.entries() == Seq::<(Seq<char>, u32)>::empty(),
    {
        let r = TextureCache { entries: Vec::new() };
        proof {
            assert(r.entries() =~= Seq::<(Seq<char>, u32)>::empty());
        }
        r
    }

    /// The texture id that `name` was stored under, if it is cached.
    pub fn lookup(&self, name: &str) -> (r: Option<u32>)
        ensures
            match r {
                Some(id) => exists|i: int|
                    0 <= i < self.entries().len() && #[trigger] self.entries()[i] == (name@, id),
                None => forall|i: int|
                    0 <= i < self.entries().len() ==> (#[trigger] self.entries()[i]).0 != name@,
            },
    {
        let n = self.entries.len();
        for i in 0..n
            invariant
                n == self.entries@.len(),
                forall|j: int| 0 <= j < i ==> (#[trigger] self.entries()[j]).0 != name@,
        {
            let e = &self.entries[i];
            if str_eq(e.0.as_str(), name) {
                proof {
                    assert(self.entries()[i as int] == (name@, self.entries@[i as int].1));
                }
                return Some(e.1);
            }
        }
        None
    }

    /// Stores the id that a file was loaded under. The file must not be
    /// cached yet, so that its name stays unique.
    pub fn insert(&mut self, name: &str, id: u32)
        requires
            old(self).wf(),
            forall|i: int|
                0 <= i < old(self).entries().len() ==> (#[trigger] old(self).entries()[i]).0
                    != name@,
        ensures
            final(self).wf(),
            final(self).entries() == old(self).entries().push((name@, id)),
    {
        self.entries.push((name.to_owned(), id));
        proof {
            assert(final(self).entries() =~= old(self).entries().push((name@, id)));
        }
    }
}

} // verus!
