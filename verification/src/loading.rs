use vstd::prelude::*;
use vstd::string::StringExecFns;

use crate::ui::{FontWeight, Lang};

verus! {

/// The path of a texture file: `assets/textures/{name}.png`.
pub fn tex_path(name: &str) -> (r: String)
    ensures
        r@ == "assets/textures/"@ + name@ + ".png"@,
{
    let mut s = String::from_str("assets/textures/");
    s.append(name);
    s.append(".png");
    s
}

/// The path of a world bitmap: `assets/{name}.png`.
pub fn world_path(name: &str) -> (r: String)
    ensures
        r@ == "assets/"@ + name@ + ".png"@,
{
    let mut s = String::from_str("assets/");
    s.append(name);
    s.append(".png");
    s
}

/// The font directory of a language: Thai has one of its own, the rest
/// share the western one.
pub open spec fn lang_folder(name: Lang) -> Seq<char> {
    match name {
        Lang::ThTh => "ThTh"@,
        _ => "west"@,
    }
}

/// The file stem of a font weight.
pub open spec fn weight_name(weight: FontWeight) -> Seq<char> {
    match weight {
        FontWeight::Bold => "Bold"@,
        FontWeight::Light => "Light"@,
        FontWeight::Regular => "Regular"@,
    }
}

/// The path of a font file: `assets/fonts/{folder}/{weight}.ttf`.
pub fn font_path(name: Lang, weight: FontWeight) -> (r: String)
    ensures
        r@ == "assets/fonts/"@ + lang_folder(name) + "/"@ + weight_name(weight) + ".ttf"@,
{
    let folder: &str = match name {
        Lang::ThTh => "ThTh",
        _ => "west",
    };
    let weight_stem: &str = match weight {
        FontWeight::Bold => "Bold",
        FontWeight::Light => "Light",
        FontWeight::Regular => "Regular",
    };
    let mut s = String::from_str("assets/fonts/");
    s.append(folder);
    s.append("/");
    s.append(weight_stem);
    s.append(".ttf");
    s
}

} // verus!
