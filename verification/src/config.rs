//! The configuration values that the scheduling engine consumes.

use vstd::prelude::*;

verus! {

/// A wallpaper pack: one ordered, possibly empty list of image file names for
/// each of the six day segments. The lists are supplied by configuration and
/// are never reordered by the engine.
#[derive(Debug)]
pub struct WallpaperPackConfig {
    pub midnight: Vec<String>,
    pub sunrise: Vec<String>,
    pub noon: Vec<String>,
    pub sunset: Vec<String>,
    pub moonrise: Vec<String>,
    pub moonset: Vec<String>,
}

/// Whether a wallpaper pack has been selected. An empty pack name is the
/// recognized "not configured" state: the scheduler reports it and exits
/// successfully without ever consulting the transit provider or building a
/// timeline.
pub fn wallpaper_pack_selected(wallpaper_pack: &String) -> (r: bool)
    ensures
        r <==> wallpaper_pack@.len() != 0,
{
    let empty = String::new();
    let is_empty = wallpaper_pack.eq(&empty);
    proof {
        if wallpaper_pack@.len() == 0 {
            assert(wallpaper_pack@ =~= Seq::<char>::empty());
        }
    }
    !is_empty
}

} // verus!
