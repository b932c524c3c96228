//! Shared value types: the snapshot of the currently focused window and the
//! icon hashing extension.

use vstd::prelude::*;
use crate::icon::{RasterImage, RasterView};

verus! {

/// The model of an optional string: the character sequence, when present.
pub open spec fn opt_str_view(o: Option<String>) -> Option<Seq<char>> {
    match o {
        Some(s) => Some(s@),
        None => None,
    }
}

/// The model of an optional raster: its view, when present.
pub open spec fn opt_raster_view(o: Option<RasterImage>) -> Option<RasterView> {
    match o {
        Some(img) => Some(img@),
        None => None,
    }
}

/// Compare two optional strings by content.
pub(crate) fn opt_str_eq(a: &Option<String>, b: &Option<String>) -> (r: bool)
    ensures
        r == (opt_str_view(*a) == opt_str_view(*b)),
{
    match (a, b) {
        (Some(x), Some(y)) => *x == *y,
        (None, None) => true,
        _ => false,
    }
}

/// Copy an optional string; the copy holds the same characters.
pub(crate) fn clone_opt_string(o: &Option<String>) -> (r: Option<String>)
    ensures
        opt_str_view(r) == opt_str_view(*o),
{
    match o {
        Some(s) => Some(s.clone()),
        None => None,
    }
}

/// Copy an optional raster; the copy models the same raster.
pub(crate) fn clone_opt_raster(o: &Option<RasterImage>) -> (r: Option<RasterImage>)
    ensures
        opt_raster_view(r) == opt_raster_view(*o),
{
    match o {
        Some(img) => Some(img.clone()),
        None => None,
    }
}

/// Compare two byte buffers by content.
pub(crate) fn bytes_eq(a: &Vec<u8>, b: &Vec<u8>) -> (r: bool)
    ensures
        r == (a@ == b@),
{
    if a.len() != b.len() {
        return false;
    }
    let mut i: usize = 0;
    while i < a.len()
        invariant
            0 <= i <= a@.len(),
            a@.len() == b@.len(),
            forall|j: int| 0 <= j < i ==> a@[j] == b@[j],
        decreases a@.len() - i,
    {
        if a[i] != b[i] {
            return false;
        }
        i = i + 1;
    }
    proof {
        assert(a@ =~= b@);
    }
    true
}

/// Snapshot of the currently focused window.
#[derive(Debug)]
pub struct FocusedWindow {
    /// Process ID of the focused window.
    pub process_id: Option<u32>,
    /// Reported process name (e.g. "firefox", "code").
    pub process_name: Option<String>,
    /// Full window title as provided by the OS.
    pub window_title: Option<String>,
    /// Icon as an RGBA8 raster (`None` if not retrievable on the platform).
    pub icon: Option<RasterImage>,
}

/// Mathematical model of a focused-window snapshot.
#[verifier::ext_equal]
pub struct FocusedWindowView {
    pub process_id: Option<u32>,
    pub process_name: Option<Seq<char>>,
    pub window_title: Option<Seq<char>>,
    pub icon: Option<RasterView>,
}

impl View for FocusedWindow {
    type V = FocusedWindowView;

    open spec fn view(&self) -> FocusedWindowView {
        FocusedWindowView {
            process_id: self.process_id,
            process_name: opt_str_view(self.process_name),
            window_title: opt_str_view(self.window_title),
            icon: opt_raster_view(self.icon),
        }
    }
}

impl Clone for FocusedWindow {
    /// A clone models the same snapshot.
    fn clone(&self) -> (r: Self)
        ensures
            r@ == self@,
    {
        let r = FocusedWindow {
            process_id: self.process_id,
            process_name: clone_opt_string(&self.process_name),
            window_title: clone_opt_string(&self.window_title),
            icon: clone_opt_raster(&self.icon),
        };
        proof {
            assert(r@ =~= self@);
        }
        r
    }
}

impl PartialEq for FocusedWindow {
    /// Structural comparison, pixel buffer included.
    fn eq(&self, other: &Self) -> (r: bool) {
        let pid_eq = match (self.process_id, other.process_id) {
            (Some(a), Some(b)) => a == b,
            (None, None) => true,
            _ => false,
        };
        let icon_eq = match (&self.icon, &other.icon) {
            (Some(a), Some(b)) => {
                let fields_eq = a.width() == b.width() && a.height() == b.height()
                    && bytes_eq(a.as_raw(), b.as_raw());
                proof {
                    if fields_eq {
                        assert(a@ =~= b@);
                    }
                }
                fields_eq
            },
            (None, None) => true,
            _ => false,
        };
        pid_eq && opt_str_eq(&self.process_name, &other.process_name)
            && opt_str_eq(&self.window_title, &other.window_title) && icon_eq
    }
}

impl vstd::std_specs::cmp::PartialEqSpecImpl for FocusedWindow {
    open spec fn obeys_eq_spec() -> bool {
        true
    }

    open spec fn eq_spec(&self, other: &Self) -> bool {
        self@ == other@
    }
}

/// Extension trait adding icon utility methods.
pub trait IconExt {
    /// Hash the icon data.
    fn hash_icon(&self) -> u64;
}

/// Relies on `fxhash::FxHasher` (via `Hash`/`Hasher` of std) over the width,
/// the height and the pixel bytes, in that order. The result is a pure
/// function of those values within one process, but depends on the machine's
/// endianness and word size, so nothing further is promised of it.
#[verifier::external_body]
fn fx_hash_raster(img: &RasterImage) -> u64 {
    let mut hasher = fxhash::FxHasher::default();
    std::hash::Hash::hash(&img.width, &mut hasher);
    std::hash::Hash::hash(&img.height, &mut hasher);
    std::hash::Hash::hash(&img.pixels, &mut hasher);
    std::hash::Hasher::finish(&hasher)
}

impl IconExt for RasterImage {
    /// Hash the icon data with the Fx hashing algorithm.
    fn hash_icon(&self) -> u64 {
        fx_hash_raster(self)
    }
}

} // verus!
