use vstd::prelude::*;

verus! {

/// A font the user chose: its display name and the path of the font
/// file it came from.
#[derive(Debug, Clone, PartialEq, Eq, Hash)]
pub struct Font {
    pub name: String,
    pub path: String,
}

/// A color theme reference, resolved structurally from a theme file's
/// name alone: `base_colors-<id>.json` yields id and name `<id>`.
#[derive(Debug, Clone, PartialEq, Eq, Hash)]
pub struct ColorTheme {
    pub id: String,
    pub name: String,
    pub path: String,
}

/// The singleton user settings: an optional font and an optional color
/// theme. Saved as a whole; absent members clear what was stored.
#[derive(Debug, Clone)]
pub struct Settings {
    pub font: Option<Font>,
    pub color_theme: Option<ColorTheme>,
}

impl Default for Settings {
    /// Factory defaults: no font and no color theme chosen.
    fn default() -> (r: Settings)
        ensures
            r.font is None,
            r.color_theme is None,
    {
        Settings { font: None, color_theme: None }
    }
}

/// The part of `path` after its last `/`: the whole of it when no `/`
/// occurs, empty when it ends in `/`.
pub open spec fn filename_of(path: Seq<char>) -> Seq<char>
    decreases path.len(),
{
    if path.len() == 0 {
        path
    } else if path.last() == '/' {
        Seq::<char>::empty()
    } else {
        filename_of(path.drop_last()).push(path.last())
    }
}

/// The theme id a filename encodes: `base_colors-<id>.json` yields
/// `<id>`, any other shape nothing.
pub open spec fn theme_id_of_filename(filename: Seq<char>) -> Option<Seq<char>> {
    if filename.len() >= 17 && filename.subrange(0, 12) == "base_colors-"@
        && filename.subrange(filename.len() - 5, filename.len() as int) == ".json"@ {
        Some(filename.subrange(12, filename.len() - 5))
    } else {
        None
    }
}

/// The theme id a path encodes, by its filename alone.
pub open spec fn theme_id_of_path(path: Seq<char>) -> Option<Seq<char>> {
    theme_id_of_filename(filename_of(path))
}

/// `t` is the theme that the path `p` refers to.
pub open spec fn is_theme_of(t: ColorTheme, p: Seq<char>) -> bool {
    &&& theme_id_of_path(p) matches Some(id)
    &&& t.id@ == id
    &&& t.name@ == id
    &&& t.path@ == p
}

/// A theme resolved from a path survives a store round trip intact:
/// the path kept in the theme re-resolves to the same id and name, so
/// saving a theme reference and reading it back re-derives the same
/// theme, whatever else was stored or lost in between.
pub proof fn lemma_theme_round_trip(t: ColorTheme, p: Seq<char>)
    requires
        is_theme_of(t, p),
    ensures
        theme_id_of_path(t.path@) == Some(t.id@),
        t.name@ == t.id@,
{
}

/// Character-for-character string equality.
pub fn str_eq(a: &str, b: &str) -> (r: bool)
    ensures
        r == (a@ == b@),
{
    let a_len = a.unicode_len();
    let b_len = b.unicode_len();
    if a_len != b_len {
        return false;
    }
    let mut i: usize = 0;
    while i < a_len
        invariant
            a_len == a@.len(),
            a_len == b@.len(),
            i <= a_len,
            forall|k: int| 0 <= k < i ==> a@[k] == b@[k],
        decreases a_len - i,
    {
        if a.get_char(i) != b.get_char(i) {
            return false;
        }
        i = i + 1;
    }
    assert(a@ =~= b@);
    true
}

impl ColorTheme {
    /// The theme a path refers to, read off the filename alone: a file
    /// named `base_colors-<id>.json` names the theme `<id>`; any other
    /// name is no theme. Nothing is read from disk, so only the naming,
    /// never the content, can make this fail.
    pub fn from_path(path: &str) -> (r: Option<ColorTheme>)
        ensures
            r is Some <==> theme_id_of_path(path@) is Some,
            r matches Some(t) ==> is_theme_of(t, path@),
    {
        let len = path.unicode_len();
        let ghost fname = filename_of(path@);
        let mut start: usize = 0;
        let mut i: usize = 0;
        while i < len
            invariant
                len == path@.len(),
                start <= i <= len,
                filename_of(path@.take(i as int)) == path@.subrange(start as int, i as int),
            decreases len - i,
        {
            let c = path.get_char(i);
            proof {
                assert(path@.take(i + 1).drop_last() =~= path@.take(i as int));
                assert(path@.take(i + 1).last() == path@[i as int]);
            }
            if c == '/' {
                start = i + 1;
                proof {
                    assert(filename_of(path@.take(i + 1)) =~= path@.subrange(
                        start as int,
                        i + 1,
                    ));
                }
            } else {
                proof {
                    assert(filename_of(path@.take(i + 1)) =~= path@.subrange(start as int, i + 1));
                }
            }
            i = i + 1;
        }
        proof {
            assert(path@.take(len as int) =~= path@);
            assert(fname =~= path@.subrange(start as int, len as int));
        }
        let fname_len = len - start;
        if fname_len < 17 {
            return None;
        }
        let prefix = path.substring_char(start, start + 12);
        proof {
            assert(prefix@ =~= fname.subrange(0, 12));
        }
        if !str_eq(prefix, "base_colors-") {
            return None;
        }
        let suffix = path.substring_char(len - 5, len);
        proof {
            assert(suffix@ =~= fname.subrange(fname.len() - 5, fname.len() as int));
        }
        if !str_eq(suffix, ".json") {
            return None;
        }
        let id = path.substring_char(start + 12, len - 5);
        proof {
            assert(id@ =~= fname.subrange(12, fname.len() - 5));
        }
        Some(
            ColorTheme {
                id: String::from_str(id),
                name: String::from_str(id),
                path: String::from_str(path),
            },
        )
    }
}

} // verus!
