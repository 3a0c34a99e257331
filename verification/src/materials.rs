//! The named stopping materials and how a deck names them.

use vstd::prelude::*;
use crate::text::chars_of;

verus! {

/// A stopping material with tabulated Bethe-Bloch parameters.
#[derive(Debug, Clone, Copy, PartialEq, Eq)]
pub enum Material {
    Water,
    /// Polypropylene.
    Plastic,
    Beryllium,
    Aluminum,
    Hydrogen,
}

/// `c` with ASCII capitals made small.
pub open spec fn lower_char(c: char) -> char {
    if 'A' <= c && c <= 'Z' {
        ((c as u32) + 32) as char
    } else {
        c
    }
}

/// `s` with ASCII capitals made small. For the all-lower-case ASCII names
/// below, with no `k`, comparing this equals comparing `str::to_lowercase`:
/// the only non-ASCII letter whose lower case is ASCII is the Kelvin sign.
pub open spec fn lower(s: Seq<char>) -> Seq<char> {
    s.map_values(|c: char| lower_char(c))
}

/// The material a name (any letter case) stands for.
pub open spec fn material_of(name: Seq<char>) -> Option<Material> {
    let l = lower(name);
    if l == "water"@ {
        Some(Material::Water)
    } else if l == "plastic"@ || l == "ch2"@ {
        Some(Material::Plastic)
    } else if l == "beryllium"@ || l == "be"@ {
        Some(Material::Beryllium)
    } else if l == "aluminum"@ || l == "aluminium"@ || l == "al"@ {
        Some(Material::Aluminum)
    } else if l == "hydrogen"@ || l == "h"@ {
        Some(Material::Hydrogen)
    } else {
        None
    }
}

fn lower_str(s: &str) -> (r: Vec<char>)
    ensures
        r@ == lower(s@),
{
    let v = chars_of(s);
    let n = v.len();
    let mut out: Vec<char> = Vec::new();
    let mut i: usize = 0;
    while i < n
        invariant
            n == v@.len(),
            v@ == s@,
            i <= n,
            out@ == lower(s@).take(i as int),
        decreases n - i,
    {
        let c = v[i];
        let l = if 'A' <= c && c <= 'Z' {
            ((c as u32) + 32) as u8 as char
        } else {
            c
        };
        assert(l == lower_char(c)) by {
            if 'A' <= c && c <= 'Z' {
                assert(((c as u32) + 32) < 256);
            }
        }
        out.push(l);
        assert(out@ =~= lower(s@).take(i + 1));
        i = i + 1;
    }
    assert(out@ =~= lower(s@));
    out
}

fn chars_eq(a: &Vec<char>, b: &str) -> (r: bool)
    ensures
        r == (a@ == b@),
{
    let w = chars_of(b);
    let n = a.len();
    if n != w.len() {
        return false;
    }
    let mut i: usize = 0;
    while i < n
        invariant
            n == a@.len() == w@.len(),
            w@ == b@,
            i <= n,
            forall|j: int| 0 <= j < i ==> a@[j] == w@[j],
        decreases n - i,
    {
        if a[i] != w[i] {
            return false;
        }
        i = i + 1;
    }
    assert(a@ =~= w@);
    true
}

impl Material {
    /// The material a deck names, ignoring letter case: `water`; `plastic` or
    /// `ch2`; `beryllium` or `be`; `aluminum`, `aluminium` or `al`;
    /// `hydrogen` or `h`.
    pub fn from_name(name: &str) -> (r: Option<Material>)
        ensures
            r == material_of(name@),
    {
        let l = lower_str(name);
        if chars_eq(&l, "water") {
            Some(Material::Water)
        } else if chars_eq(&l, "plastic") || chars_eq(&l, "ch2") {
            Some(Material::Plastic)
        } else if chars_eq(&l, "beryllium") || chars_eq(&l, "be") {
            Some(Material::Beryllium)
        } else if chars_eq(&l, "aluminum") || chars_eq(&l, "aluminium") || chars_eq(&l, "al") {
            Some(Material::Aluminum)
        } else if chars_eq(&l, "hydrogen") || chars_eq(&l, "h") {
            Some(Material::Hydrogen)
        } else {
            None
        }
    }
}

} // verus!

verus! {

/// Law: a material name means the same in any letter case.
pub proof fn law_material_name_ignores_case(a: Seq<char>, b: Seq<char>)
    requires
        lower(a) == lower(b),
    ensures
        material_of(a) == material_of(b),
{
}

/// Whether `l` (in small letters) is one of the names of material `m`.
pub open spec fn names_material(m: Material, l: Seq<char>) -> bool {
    match m {
        Material::Water => l == "water"@,
        Material::Plastic => l == "plastic"@ || l == "ch2"@,
        Material::Beryllium => l == "beryllium"@ || l == "be"@,
        Material::Aluminum => l == "aluminum"@ || l == "aluminium"@ || l == "al"@,
        Material::Hydrogen => l == "hydrogen"@ || l == "h"@,
    }
}

/// Law: a name stands for a material exactly when, in small letters, it is
/// one of that material's names; so no name stands for two materials.
pub proof fn law_material_names(name: Seq<char>, m: Material)
    ensures
        material_of(name) == Some(m) <==> names_material(m, lower(name)),
{
    reveal_strlit("water");
    reveal_strlit("plastic");
    reveal_strlit("ch2");
    reveal_strlit("beryllium");
    reveal_strlit("be");
    reveal_strlit("aluminum");
    reveal_strlit("aluminium");
    reveal_strlit("al");
    reveal_strlit("hydrogen");
    reveal_strlit("h");
    assert("plastic"@.len() != "water"@.len());
    assert("ch2"@.len() != "water"@.len());
    assert("ch2"@.len() != "plastic"@.len());
    assert("beryllium"@.len() != "water"@.len());
    assert("beryllium"@.len() != "plastic"@.len());
    assert("beryllium"@.len() != "ch2"@.len());
    assert("be"@.len() != "water"@.len());
    assert("be"@.len() != "plastic"@.len());
    assert("be"@.len() != "ch2"@.len());
    assert("be"@.len() != "beryllium"@.len());
    assert("aluminum"@.len() != "water"@.len());
    assert("aluminum"@.len() != "plastic"@.len());
    assert("aluminum"@.len() != "ch2"@.len());
    assert("aluminum"@.len() != "beryllium"@.len());
    assert("aluminum"@.len() != "be"@.len());
    assert("aluminium"@.len() != "water"@.len());
    assert("aluminium"@.len() != "plastic"@.len());
    assert("aluminium"@.len() != "ch2"@.len());
    assert("aluminium"@[0] != "beryllium"@[0]);
    assert("aluminium"@.len() != "be"@.len());
    assert("aluminium"@.len() != "aluminum"@.len());
    assert("al"@.len() != "water"@.len());
    assert("al"@.len() != "plastic"@.len());
    assert("al"@.len() != "ch2"@.len());
    assert("al"@.len() != "beryllium"@.len());
    assert("al"@[0] != "be"@[0]);
    assert("al"@.len() != "aluminum"@.len());
    assert("al"@.len() != "aluminium"@.len());
    assert("hydrogen"@.len() != "water"@.len());
    assert("hydrogen"@.len() != "plastic"@.len());
    assert("hydrogen"@.len() != "ch2"@.len());
    assert("hydrogen"@.len() != "beryllium"@.len());
    assert("hydrogen"@.len() != "be"@.len());
    assert("hydrogen"@[0] != "aluminum"@[0]);
    assert("hydrogen"@.len() != "aluminium"@.len());
    assert("hydrogen"@.len() != "al"@.len());
    assert("h"@.len() != "water"@.len());
    assert("h"@.len() != "plastic"@.len());
    assert("h"@.len() != "ch2"@.len());
    assert("h"@.len() != "beryllium"@.len());
    assert("h"@.len() != "be"@.len());
    assert("h"@.len() != "aluminum"@.len());
    assert("h"@.len() != "aluminium"@.len());
    assert("h"@.len() != "al"@.len());
    assert("h"@.len() != "hydrogen"@.len());
}

} // verus!
