use vstd::prelude::*;

use crate::button::ButtonKind;

verus! {

/// What a click on the UI hit.
#[derive(Debug, PartialEq, Eq, Clone, Copy, Structural)]
pub enum UIHit {
    Button(ButtonKind),
}

/// The languages fonts are provided for.
#[derive(Debug, Clone, Copy, PartialEq, Eq, Structural)]
pub enum Lang {
    SvSe,
    EnUs,
    ThTh,
}

/// The font weights provided per language.
#[derive(Debug, Clone, Copy, PartialEq, Eq, Structural)]
pub enum FontWeight {
    Bold,
    Light,
    Regular,
}

} // verus!
