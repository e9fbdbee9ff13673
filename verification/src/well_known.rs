//! The well-known-trait bridge: a fixed, closed mapping between the
//! language's marker-attribute names and the solver's enumerated well-known
//! traits. Absence in either direction means "no information", never an
//! error.

use vstd::prelude::*;

verus! {

/// The solver's enumerated well-known traits.
#[derive(Clone, Copy, PartialEq, Eq, Structural, Debug)]
pub enum WellKnownTrait {
    Sized,
    Copy,
    Clone,
    Drop,
    FnOnce,
    FnMut,
    Fn,
    Unsize,
}

/// The marker-attribute name of a well-known trait.
pub open spec fn lang_attr_of_well_known(w: WellKnownTrait) -> Seq<char> {
    match w {
        WellKnownTrait::Sized => "sized"@,
        WellKnownTrait::Copy => "copy"@,
        WellKnownTrait::Clone => "clone"@,
        WellKnownTrait::Drop => "drop"@,
        WellKnownTrait::FnOnce => "fn_once"@,
        WellKnownTrait::FnMut => "fn_mut"@,
        WellKnownTrait::Fn => "fn"@,
        WellKnownTrait::Unsize => "unsize"@,
    }
}

/// The well-known trait a marker-attribute name denotes, if any.
pub open spec fn well_known_from_lang_attr_spec(name: Seq<char>) -> Option<WellKnownTrait> {
    if name == "sized"@ {
        Some(WellKnownTrait::Sized)
    } else if name == "copy"@ {
        Some(WellKnownTrait::Copy)
    } else if name == "clone"@ {
        Some(WellKnownTrait::Clone)
    } else if name == "drop"@ {
        Some(WellKnownTrait::Drop)
    } else if name == "fn_once"@ {
        Some(WellKnownTrait::FnOnce)
    } else if name == "fn_mut"@ {
        Some(WellKnownTrait::FnMut)
    } else if name == "fn"@ {
        Some(WellKnownTrait::Fn)
    } else if name == "unsize"@ {
        Some(WellKnownTrait::Unsize)
    } else {
        None
    }
}

/// The well-known trait for a lang attribute name; `None` for every name
/// outside the fixed set of eight markers.
pub fn well_known_trait_from_lang_attr(name: &String) -> (r: Option<WellKnownTrait>)
    ensures
        r == well_known_from_lang_attr_spec(name@),
{
    if *name == "sized".to_owned() {
        Some(WellKnownTrait::Sized)
    } else if *name == "copy".to_owned() {
        Some(WellKnownTrait::Copy)
    } else if *name == "clone".to_owned() {
        Some(WellKnownTrait::Clone)
    } else if *name == "drop".to_owned() {
        Some(WellKnownTrait::Drop)
    } else if *name == "fn_once".to_owned() {
        Some(WellKnownTrait::FnOnce)
    } else if *name == "fn_mut".to_owned() {
        Some(WellKnownTrait::FnMut)
    } else if *name == "fn".to_owned() {
        Some(WellKnownTrait::Fn)
    } else if *name == "unsize".to_owned() {
        Some(WellKnownTrait::Unsize)
    } else {
        None
    }
}

/// The lang attribute name of a well-known trait.
pub fn lang_attr_from_well_known_trait(attr: WellKnownTrait) -> (r: &'static str)
    ensures
        r@ == lang_attr_of_well_known(attr),
{
    match attr {
        WellKnownTrait::Sized => "sized",
        WellKnownTrait::Copy => "copy",
        WellKnownTrait::Clone => "clone",
        WellKnownTrait::Drop => "drop",
        WellKnownTrait::FnOnce => "fn_once",
        WellKnownTrait::FnMut => "fn_mut",
        WellKnownTrait::Fn => "fn",
        WellKnownTrait::Unsize => "unsize",
    }
}

/// Bijection, name side: a name that denotes a well-known trait is exactly
/// that trait's name.
pub proof fn lemma_well_known_name_inverse(name: Seq<char>)
    ensures
        well_known_from_lang_attr_spec(name) matches Some(w) ==> lang_attr_of_well_known(w)
            == name,
{
}

/// Bijection, tag side: every one of the eight defined marker names maps
/// back to the tag it names.
pub proof fn lemma_well_known_bijection(w: WellKnownTrait)
    ensures
        well_known_from_lang_attr_spec(lang_attr_of_well_known(w)) == Some(w),
{
    reveal_strlit("sized");
    reveal_strlit("copy");
    reveal_strlit("clone");
    reveal_strlit("drop");
    reveal_strlit("fn_once");
    reveal_strlit("fn_mut");
    reveal_strlit("fn");
    reveal_strlit("unsize");
    assert("sized"@.len() == 5 && "copy"@.len() == 4 && "clone"@.len() == 5 && "drop"@.len() == 4
        && "fn_once"@.len() == 7 && "fn_mut"@.len() == 6 && "fn"@.len() == 2 && "unsize"@.len()
        == 6);
    assert("clone"@[0] == 'c' && "sized"@[0] == 's');
    assert("drop"@[0] == 'd' && "copy"@[0] == 'c');
    assert("fn_mut"@[3] == 'm' && "unsize"@[3] == 'i');
}

} // verus!
