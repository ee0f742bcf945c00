use vstd::prelude::*;

use crate::settings_types::ColorTheme;
use crate::settings_types::is_theme_of;
use crate::settings_types::theme_id_of_path;

verus! {

/// Failure while collecting the available color themes: resolving the
/// active release's resources directory, reading it, or looking up the
/// active release itself. Each variant carries the cause's message.
#[derive(Debug, Clone, PartialEq, Eq)]
pub enum GetColorThemesError {
    ResourcesDir(String),
    ReadDir(String),
    ActiveRelease(String),
}

/// Lexicographic order on character sequences, by code point.
pub open spec fn lex_le(a: Seq<char>, b: Seq<char>) -> bool
    decreases a.len(),
{
    if a.len() == 0 {
        true
    } else if b.len() == 0 {
        false
    } else if a[0] != b[0] {
        a[0] < b[0]
    } else {
        lex_le(a.subrange(1, a.len() as int), b.subrange(1, b.len() as int))
    }
}

/// The lexicographic order is total: of any two sequences, one is less
/// than or equal to the other.
pub proof fn lemma_lex_le_total(a: Seq<char>, b: Seq<char>)
    ensures
        lex_le(a, b) || lex_le(b, a),
    decreases a.len(),
{
    if a.len() == 0 {
    } else if b.len() == 0 {
    } else if a[0] != b[0] {
    } else {
        lemma_lex_le_total(a.subrange(1, a.len() as int), b.subrange(1, b.len() as int));
    }
}

/// Lexicographic comparison of two strings, by code point.
pub fn name_le(a: &str, b: &str) -> (r: bool)
    ensures
        r == lex_le(a@, b@),
{
    let a_len = a.unicode_len();
    let b_len = b.unicode_len();
    proof {
        assert(a@.subrange(0, a_len as int) =~= a@);
        assert(b@.subrange(0, b_len as int) =~= b@);
    }
    let mut i: usize = 0;
    while i < a_len && i < b_len
        invariant
            a_len == a@.len(),
            b_len == b@.len(),
            i <= a_len,
            i <= b_len,
            lex_le(a@, b@) == lex_le(
                a@.subrange(i as int, a_len as int),
                b@.subrange(i as int, b_len as int),
            ),
        decreases a_len - i,
    {
        let ca = a.get_char(i);
        let cb = b.get_char(i);
        if ca != cb {
            return ca < cb;
        }
        proof {
            let sa = a@.subrange(i as int, a_len as int);
            let sb = b@.subrange(i as int, b_len as int);
            assert(sa.subrange(1, sa.len() as int) =~= a@.subrange(i + 1, a_len as int));
            assert(sb.subrange(1, sb.len() as int) =~= b@.subrange(i + 1, b_len as int));
        }
        i = i + 1;
    }
    a_len <= b_len
}

/// The themes stand in non-decreasing name order.
pub open spec fn sorted_by_name(s: Seq<ColorTheme>) -> bool {
    forall|i: int| 0 <= i && i + 1 < s.len() ==> lex_le(#[trigger] s[i].name@, s[i + 1].name@)
}

/// How many of the paths name a theme.
pub open spec fn theme_count(paths: Seq<String>) -> nat
    decreases paths.len(),
{
    if paths.len() == 0 {
        0
    } else {
        theme_count(paths.drop_last()) + if theme_id_of_path(paths.last()@) is Some {
            1nat
        } else {
            0nat
        }
    }
}

/// Insert a theme into a name-sorted list, keeping it sorted.
fn insert_sorted(themes: &mut Vec<ColorTheme>, theme: ColorTheme)
    requires
        sorted_by_name(old(themes)@),
    ensures
        sorted_by_name(final(themes)@),
        exists|p: int|
            0 <= p <= old(themes)@.len() && final(themes)@ == old(themes)@.insert(p, theme),
{
    let ghost s = themes@;
    let mut pos: usize = 0;
    while pos < themes.len() && name_le(themes[pos].name.as_str(), theme.name.as_str())
        invariant
            themes@ == s,
            pos <= s.len(),
            forall|k: int| 0 <= k < pos ==> lex_le(s[k].name@, theme.name@),
        decreases s.len() - pos,
    {
        pos = pos + 1;
    }
    proof {
        if (pos as int) < s.len() {
            lemma_lex_le_total(s[pos as int].name@, theme.name@);
        }
        s.insert_ensures(pos as int, theme);
    }
    themes.insert(pos, theme);
    proof {
        let s2 = s.insert(pos as int, theme);
        assert forall|i: int| 0 <= i && i + 1 < s2.len() implies lex_le(
            #[trigger] s2[i].name@,
            s2[i + 1].name@,
        ) by {
            if i + 1 < pos {
                assert(s2[i] == s[i] && s2[i + 1] == s[i + 1]);
            } else if i + 1 == pos {
                assert(s2[i] == s[i] && s2[i + 1] == theme);
            } else if i == pos {
                assert(s2[i] == theme && s2[i + 1] == s[i]);
            } else {
                assert(s2[i] == s[i - 1] && s2[i + 1] == s[i]);
            }
        }
        assert(exists|p: int| 0 <= p <= s.len() && themes@ == s.insert(p, theme)) by {
            assert(themes@ == s.insert(pos as int, theme));
        }
    }
}

/// `t` is the theme of one of the first `n` paths.
pub open spec fn has_source_upto(t: ColorTheme, paths: Seq<String>, n: int) -> bool {
    exists|j: int| 0 <= j < n && is_theme_of(t, #[trigger] paths[j]@)
}

/// `t` is the theme of one of the paths.
pub open spec fn has_source(t: ColorTheme, paths: Seq<String>) -> bool {
    has_source_upto(t, paths, paths.len() as int)
}

/// Some listed theme is the theme of the path `p`.
pub open spec fn lists_theme_of(themes: Seq<ColorTheme>, p: Seq<char>) -> bool {
    exists|i: int| 0 <= i < themes.len() && is_theme_of(#[trigger] themes[i], p)
}

/// The color themes the given files name, sorted by theme name: every
/// file called `base_colors-<id>.json` contributes the theme `<id>`,
/// every other file contributes nothing.
pub fn themes_from_paths(paths: &Vec<String>) -> (r: Vec<ColorTheme>)
    ensures
        sorted_by_name(r@),
        r@.len() == theme_count(paths@),
        forall|i: int| 0 <= i < r@.len() ==> has_source(#[trigger] r@[i], paths@),
        forall|j: int|
            0 <= j < paths@.len() && theme_id_of_path(#[trigger] paths@[j]@) is Some
                ==> lists_theme_of(r@, paths@[j]@),
{
    let mut themes: Vec<ColorTheme> = Vec::new();
    let mut j: usize = 0;
    while j < paths.len()
        invariant
            j <= paths@.len(),
            sorted_by_name(themes@),
            themes@.len() == theme_count(paths@.take(j as int)),
            forall|i: int|
                0 <= i < themes@.len() ==> has_source_upto(#[trigger] themes@[i], paths@, j as int),
            forall|k: int|
                0 <= k < j && theme_id_of_path(#[trigger] paths@[k]@) is Some ==> lists_theme_of(
                    themes@,
                    paths@[k]@,
                ),
        decreases paths@.len() - j,
    {
        proof {
            assert(paths@.take(j + 1).drop_last() =~= paths@.take(j as int));
            assert(paths@.take(j + 1).last() == paths@[j as int]);
        }
        let ghost before = themes@;
        if let Some(theme) = ColorTheme::from_path(paths[j].as_str()) {
            insert_sorted(&mut themes, theme);
            proof {
                let p = choose|p: int|
                    0 <= p <= before.len() && themes@ == before.insert(p, theme);
                before.insert_ensures(p, theme);
                assert forall|i: int| 0 <= i < themes@.len() implies has_source_upto(
                    #[trigger] themes@[i],
                    paths@,
                    j + 1,
                ) by {
                    if i < p {
                        assert(themes@[i] == before[i]);
                        let k = choose|k: int| 0 <= k < j && is_theme_of(before[i], paths@[k]@);
                        assert(is_theme_of(themes@[i], paths@[k]@));
                    } else if i == p {
                        assert(themes@[i] == theme);
                        assert(is_theme_of(themes@[i], paths@[j as int]@));
                    } else {
                        assert(themes@[i] == before[i - 1]);
                        let k = choose|k: int|
                            0 <= k < j && is_theme_of(before[i - 1], paths@[k]@);
                        assert(is_theme_of(themes@[i], paths@[k]@));
                    }
                }
                assert forall|k: int|
                    0 <= k < j + 1 && theme_id_of_path(
                        #[trigger] paths@[k]@,
                    ) is Some implies lists_theme_of(themes@, paths@[k]@) by {
                    if k == j {
                        assert(themes@[p] == theme);
                        assert(is_theme_of(themes@[p], paths@[k]@));
                    } else {
                        let i = choose|i: int|
                            0 <= i < before.len() && is_theme_of(before[i], paths@[k]@);
                        if i < p {
                            assert(themes@[i] == before[i]);
                            assert(is_theme_of(themes@[i], paths@[k]@));
                        } else {
                            assert(themes@[i + 1] == before[i]);
                            assert(is_theme_of(themes@[i + 1], paths@[k]@));
                        }
                    }
                }
            }
        } else {
            proof {
                assert forall|i: int| 0 <= i < themes@.len() implies has_source_upto(
                    #[trigger] themes@[i],
                    paths@,
                    j + 1,
                ) by {
                    let k = choose|k: int| 0 <= k < j && is_theme_of(themes@[i], paths@[k]@);
                    assert(is_theme_of(themes@[i], paths@[k]@));
                }
            }
        }
        j = j + 1;
    }
    proof {
        assert(paths@.take(paths@.len() as int) =~= paths@);
    }
    themes
}

} // verus!
