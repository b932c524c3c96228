//! Fallback icon search (freedesktop-style), used on Linux when native
//! extraction yields nothing: the decision logic — process-name
//! normalization, candidate path generation in tier order, and
//! desktop-entry `Icon=` resolution. The filesystem probes and the image
//! decoding around these decisions are the caller's; the first candidate
//! that loads and decodes wins, and SVG sources are skipped (they are never
//! decodable here), which is why only `.png` candidates are generated.
//!
//! The name-mapping table can substitute an icon for the wrong logical app
//! when a short name matches coincidentally; the tiered behavior is kept
//! as is rather than tightened.

use vstd::prelude::*;
use vstd::string::{StrSliceExecFns, StringExecFns};

verus! {

broadcast use vstd::string::group_string_axioms;

/// The canonical icon name for a process name: a small table normalizes
/// well-known applications (browsers, editors, terminals, office suites)
/// whose executable name differs from their icon name; every other name is
/// used as it is.
pub open spec fn canonical_icon_name(name: Seq<char>) -> Seq<char> {
    if name == "google-chrome-stable"@ {
        "google-chrome"@
    } else if name == "chromium-browser"@ {
        "chromium"@
    } else if name == "firefox-esr"@ {
        "firefox"@
    } else if name == "code-oss"@ {
        "code"@
    } else if name == "gnome-terminal-server"@ {
        "org.gnome.Terminal"@
    } else if name == "soffice.bin"@ {
        "libreoffice-startcenter"@
    } else {
        name
    }
}

/// Normalize a process name to the canonical icon name.
pub fn icon_name_for_process(process_name: &String) -> (r: String)
    ensures
        r@ == canonical_icon_name(process_name@),
{
    if *process_name == "google-chrome-stable".to_string() {
        "google-chrome".to_string()
    } else if *process_name == "chromium-browser".to_string() {
        "chromium".to_string()
    } else if *process_name == "firefox-esr".to_string() {
        "firefox".to_string()
    } else if *process_name == "code-oss".to_string() {
        "code".to_string()
    } else if *process_name == "gnome-terminal-server".to_string() {
        "org.gnome.Terminal".to_string()
    } else if *process_name == "soffice.bin".to_string() {
        "libreoffice-startcenter".to_string()
    } else {
        process_name.clone()
    }
}

/// The conventional legacy pixmap path probed directly for an icon name.
pub open spec fn pixmap_candidate(name: Seq<char>) -> Seq<char> {
    "/usr/share/pixmaps/"@ + name + ".png"@
}

/// The size-tier directory names probed inside each theme root, largest
/// first (256 down to 16 pixels).
pub open spec fn size_dirs() -> Seq<Seq<char>> {
    seq![
        "256x256"@,
        "128x128"@,
        "96x96"@,
        "64x64"@,
        "48x48"@,
        "32x32"@,
        "24x24"@,
        "16x16"@,
    ]
}

/// The theme roots probed, in order: the common system roots, then the
/// user's local icon directory when a home directory is known.
pub open spec fn theme_roots(home: Option<Seq<char>>) -> Seq<Seq<char>> {
    let base = seq!["/usr/share/icons/hicolor"@, "/usr/local/share/icons/hicolor"@];
    match home {
        Some(h) => base.push(h + "/.local/share/icons/hicolor"@),
        None => base,
    }
}

/// One size-tiered theme candidate path.
pub open spec fn theme_candidate(root: Seq<char>, dims: Seq<char>, name: Seq<char>) -> Seq<char> {
    root + "/"@ + dims + "/apps/"@ + name + ".png"@
}

/// All size-tiered theme candidates: every root, largest size first within
/// each root.
pub open spec fn theme_candidate_list(name: Seq<char>, home: Option<Seq<char>>) -> Seq<Seq<char>> {
    let roots = theme_roots(home);
    Seq::new(roots.len() * 8, |k: int| theme_candidate(roots[k / 8], size_dirs()[k % 8], name))
}

/// The whole fallback candidate list for a process name: the canonical
/// name's legacy pixmap probe first, then the size-tiered theme probes.
pub open spec fn fallback_candidate_list(
    name: Seq<char>,
    home: Option<Seq<char>>,
) -> Seq<Seq<char>> {
    let cn = canonical_icon_name(name);
    seq![pixmap_candidate(cn)] + theme_candidate_list(cn, home)
}

/// The view of an optional home-directory argument.
pub open spec fn opt_home_view(home: Option<&String>) -> Option<Seq<char>> {
    match home {
        Some(h) => Some(h@),
        None => None,
    }
}

/// Build the eight size-tier candidates under one theme root.
fn size_tier_for_root(root: &String, icon_name: &String) -> (r: Vec<String>)
    ensures
        r@.len() == 8,
        forall|j: int|
            0 <= j < 8 ==> r@[j]@ == theme_candidate(root@, size_dirs()[j], icon_name@),
{
    let dims: Vec<&str> = vec!["256x256", "128x128", "96x96", "64x64", "48x48", "32x32", "24x24", "16x16"];
    proof {
        assert forall|j: int| 0 <= j < 8 implies dims@[j]@ == size_dirs()[j] by {
            assert(size_dirs()[j] == dims@[j]@);
        }
    }
    let mut r: Vec<String> = Vec::new();
    let mut j: usize = 0;
    while j < 8
        invariant
            dims@.len() == 8,
            forall|k: int| 0 <= k < 8 ==> dims@[k]@ == size_dirs()[k],
            0 <= j <= 8,
            r@.len() == j,
            forall|k: int|
                0 <= k < j ==> r@[k]@ == theme_candidate(root@, size_dirs()[k], icon_name@),
        decreases 8 - j,
    {
        let p = root.clone().concat("/").concat(dims[j]).concat("/apps/").concat(
            icon_name.as_str(),
        ).concat(".png");
        r.push(p);
        j = j + 1;
    }
    r
}

/// Generate every fallback candidate path for a process name, in probe
/// order: the legacy pixmap location for the canonical icon name, then the
/// size-tiered theme locations (each root largest-first). The caller probes
/// them in order and keeps the first image that loads and decodes.
pub fn fallback_candidates(process_name: &String, home_dir: Option<&String>) -> (r: Vec<String>)
    ensures
        r@.len() == fallback_candidate_list(process_name@, opt_home_view(home_dir)).len(),
        forall|k: int|
            0 <= k < r@.len() ==> r@[k]@ == fallback_candidate_list(
                process_name@,
                opt_home_view(home_dir),
            )[k],
{
    let icon_name = icon_name_for_process(process_name);
    let mut r: Vec<String> = Vec::new();
    let pixmap = "/usr/share/pixmaps/".to_string().concat(icon_name.as_str()).concat(".png");
    r.push(pixmap);

    let mut roots: Vec<String> = Vec::new();
    roots.push("/usr/share/icons/hicolor".to_string());
    roots.push("/usr/local/share/icons/hicolor".to_string());
    match home_dir {
        Some(h) => {
            roots.push(h.clone().concat("/.local/share/icons/hicolor"));
        },
        None => {},
    }
    proof {
        assert(roots@.len() == theme_roots(opt_home_view(home_dir)).len());
        assert forall|i: int| 0 <= i < roots@.len() implies roots@[i]@ == theme_roots(
            opt_home_view(home_dir),
        )[i] by {}
    }

    let ghost home_v = opt_home_view(home_dir);
    let ghost list = fallback_candidate_list(process_name@, home_v);
    let mut i: usize = 0;
    while i < roots.len()
        invariant
            list == fallback_candidate_list(process_name@, home_v),
            icon_name@ == canonical_icon_name(process_name@),
            roots@.len() == theme_roots(home_v).len(),
            forall|k: int| 0 <= k < roots@.len() ==> roots@[k]@ == theme_roots(home_v)[k],
            0 <= i <= roots@.len(),
            r@.len() == 1 + i * 8,
            list.len() == 1 + roots@.len() * 8,
            forall|k: int| 0 <= k < r@.len() ==> r@[k]@ == list[k],
        decreases roots@.len() - i,
    {
        let tier = size_tier_for_root(&roots[i], &icon_name);
        let mut j: usize = 0;
        while j < tier.len()
            invariant
                list == fallback_candidate_list(process_name@, home_v),
                icon_name@ == canonical_icon_name(process_name@),
                roots@.len() == theme_roots(home_v).len(),
                forall|k: int| 0 <= k < roots@.len() ==> roots@[k]@ == theme_roots(home_v)[k],
                0 <= i < roots@.len(),
                tier@.len() == 8,
                forall|k: int|
                    0 <= k < 8 ==> tier@[k]@ == theme_candidate(
                        roots@[i as int]@,
                        size_dirs()[k],
                        icon_name@,
                    ),
                0 <= j <= 8,
                r@.len() == 1 + i * 8 + j,
                list.len() == 1 + roots@.len() * 8,
                forall|k: int| 0 <= k < r@.len() ==> r@[k]@ == list[k],
            decreases 8 - j,
        {
            let p = tier[j].clone();
            proof {
                let k = (1 + i * 8 + j) as int;
                assert(list[k] == theme_candidate(
                    theme_roots(home_v)[(k - 1) / 8],
                    size_dirs()[(k - 1) % 8],
                    canonical_icon_name(process_name@),
                ));
                assert((k - 1) / 8 == i as int && (k - 1) % 8 == j as int) by (nonlinear_arith)
                    requires
                        0 <= j < 8,
                        0 <= i,
                        k == 1 + i * 8 + j,
                ;
            }
            r.push(p);
            j = j + 1;
        }
        i = i + 1;
    }
    r
}

/// Whether a desktop-entry line assigns the icon key: it starts `Icon=`.
pub open spec fn is_icon_line(l: Seq<char>) -> bool {
    l.len() >= 5 && l.take(5) == "Icon="@
}

/// The icon name a desktop entry resolves to: the text after `Icon=` on the
/// first line that assigns it.
pub open spec fn desktop_icon_of(lines: Seq<Seq<char>>) -> Option<Seq<char>>
    decreases lines.len(),
{
    if lines.len() == 0 {
        None
    } else if is_icon_line(lines[0]) {
        Some(lines[0].skip(5))
    } else {
        desktop_icon_of(lines.drop_first())
    }
}

/// The views of a sequence of lines.
pub open spec fn line_views(v: Seq<String>) -> Seq<Seq<char>> {
    v.map_values(|s: String| s@)
}

/// Resolve the `Icon=` field of a desktop entry, handed as its lines: the
/// resolved name is then searched exactly like a process name's canonical
/// icon name (legacy pixmap, then size-tiered theme probes).
pub fn desktop_entry_icon(lines: &Vec<String>) -> (r: Option<String>)
    ensures
        match r {
            Some(s) => desktop_icon_of(line_views(lines@)) == Some(s@),
            None => desktop_icon_of(line_views(lines@)) is None,
        },
{
    let ghost all = line_views(lines@);
    proof {
        assert(all.skip(0) =~= all);
    }
    let mut i: usize = 0;
    while i < lines.len()
        invariant
            all == line_views(lines@),
            0 <= i <= lines@.len(),
            desktop_icon_of(all) == desktop_icon_of(all.skip(i as int)),
        decreases lines@.len() - i,
    {
        let l = lines[i].as_str();
        let n = l.unicode_len();
        proof {
            assert(all.skip(i as int)[0] == lines@[i as int]@);
        }
        if n >= 5 {
            let head = l.substring_char(0, 5);
            if head.to_string() == "Icon=".to_string() {
                proof {
                    assert(lines@[i as int]@.take(5) =~= lines@[i as int]@.subrange(0, 5));
                    assert(is_icon_line(all.skip(i as int)[0]));
                }
                let rest = l.substring_char(5, n).to_string();
                proof {
                    assert(rest@ =~= all.skip(i as int)[0].skip(5));
                }
                return Some(rest);
            }
        }
        proof {
            assert(!is_icon_line(all.skip(i as int)[0])) by {
                if all.skip(i as int)[0].len() >= 5 {
                    assert(lines@[i as int]@.take(5) =~= lines@[i as int]@.subrange(0, 5));
                }
            }
            assert(all.skip(i as int).drop_first() =~= all.skip(i as int + 1));
        }
        i = i + 1;
    }
    proof {
        assert(all.skip(lines@.len() as int).len() == 0);
    }
    None
}

} // verus!
