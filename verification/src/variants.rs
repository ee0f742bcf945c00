use vstd::prelude::*;

use crate::settings_types::str_eq;

verus! {

/// One supported flavor of the game. A variant partitions every stored
/// table and the on-disk user-data layout.
#[derive(Debug, Clone, Copy, PartialEq, Eq, Structural, Hash)]
pub enum GameVariant {
    DarkDaysAhead,
    BrightNights,
    TheLastGeneration,
}

/// Classification of a published release for a variant.
#[derive(Debug, Clone, Copy, PartialEq, Eq, Structural)]
pub enum ReleaseType {
    Stable,
    Experimental,
    ReleaseCandidate,
}

/// `needle` occurs in `hay` starting at position `i`.
pub open spec fn seq_contains_at(hay: Seq<char>, needle: Seq<char>, i: int) -> bool {
    0 <= i && i + needle.len() <= hay.len() && hay.subrange(i, i + needle.len() as int)
        == needle
}

/// `needle` occurs somewhere in `hay`.
pub open spec fn seq_contains(hay: Seq<char>, needle: Seq<char>) -> bool {
    exists|i: int| seq_contains_at(hay, needle, i)
}

/// Substring search over unicode characters.
pub fn str_contains(hay: &str, needle: &str) -> (r: bool)
    ensures
        r == seq_contains(hay@, needle@),
{
    let hay_len = hay.unicode_len();
    let needle_len = needle.unicode_len();
    if needle_len > hay_len {
        assert(forall|i: int| !seq_contains_at(hay@, needle@, i));
        return false;
    }
    let mut i: usize = 0;
    while i <= hay_len - needle_len
        invariant
            hay_len == hay@.len(),
            needle_len == needle@.len(),
            needle_len <= hay_len,
            i <= hay_len - needle_len + 1,
            forall|k: int| 0 <= k < i ==> !seq_contains_at(hay@, needle@, k),
        decreases hay_len - needle_len + 1 - i,
    {
        let mut j: usize = 0;
        while j < needle_len && hay.get_char(i + j) == needle.get_char(j)
            invariant
                hay_len == hay@.len(),
                needle_len == needle@.len(),
                needle_len <= hay_len,
                i <= hay_len - needle_len,
                j <= needle_len,
                forall|t: int| 0 <= t < j ==> hay@[i + t] == needle@[t],
            decreases needle_len - j,
        {
            j = j + 1;
        }
        if j == needle_len {
            assert(hay@.subrange(i as int, i + needle@.len() as int) =~= needle@);
            assert(seq_contains_at(hay@, needle@, i as int));
            return true;
        }
        assert(!seq_contains_at(hay@, needle@, i as int));
        i = i + 1;
    }
    assert(forall|k: int| !seq_contains_at(hay@, needle@, k));
    false
}

impl GameVariant {
    /// The stable identifier of the variant, used as the `game_variant`
    /// key in every table and when naming its directories.
    pub open spec fn id_spec(self) -> Seq<char> {
        match self {
            GameVariant::DarkDaysAhead => "DarkDaysAhead"@,
            GameVariant::BrightNights => "BrightNights"@,
            GameVariant::TheLastGeneration => "TheLastGeneration"@,
        }
    }

    pub fn id(&self) -> (r: &'static str)
        ensures
            r@ == self.id_spec(),
    {
        match self {
            GameVariant::DarkDaysAhead => "DarkDaysAhead",
            GameVariant::BrightNights => "BrightNights",
            GameVariant::TheLastGeneration => "TheLastGeneration",
        }
    }

    /// The human-readable name of the variant.
    pub open spec fn name_spec(self) -> Seq<char> {
        match self {
            GameVariant::DarkDaysAhead => "Dark Days Ahead"@,
            GameVariant::BrightNights => "Bright Nights"@,
            GameVariant::TheLastGeneration => "The Last Generation"@,
        }
    }

    pub fn name(&self) -> (r: &'static str)
        ensures
            r@ == self.name_spec(),
    {
        match self {
            GameVariant::DarkDaysAhead => "Dark Days Ahead",
            GameVariant::BrightNights => "Bright Nights",
            GameVariant::TheLastGeneration => "The Last Generation",
        }
    }

    /// How a release with the given tag and prerelease flag is classified.
    /// Dark Days Ahead distinguishes release candidates among prereleases
    /// by the tag; the other variants only know stable and experimental.
    pub open spec fn release_type_spec(self, tag_name: Seq<char>, prerelease: bool) -> ReleaseType {
        match self {
            GameVariant::DarkDaysAhead => if !prerelease {
                ReleaseType::Stable
            } else if seq_contains(tag_name, "experimental"@) {
                ReleaseType::Experimental
            } else {
                ReleaseType::ReleaseCandidate
            },
            _ => if prerelease {
                ReleaseType::Experimental
            } else {
                ReleaseType::Stable
            },
        }
    }

    pub fn determine_release_type(&self, tag_name: &str, prerelease: bool) -> (r: ReleaseType)
        ensures
            r == self.release_type_spec(tag_name@, prerelease),
    {
        match self {
            GameVariant::DarkDaysAhead => {
                if !prerelease {
                    ReleaseType::Stable
                } else if str_contains(tag_name, "experimental") {
                    ReleaseType::Experimental
                } else {
                    ReleaseType::ReleaseCandidate
                }
            },
            _ => {
                if prerelease {
                    ReleaseType::Experimental
                } else {
                    ReleaseType::Stable
                }
            },
        }
    }

    /// The typeface categories a variant's configuration accepts.
    pub open spec fn typeface_categories_spec(self) -> Seq<Seq<char>> {
        if self is DarkDaysAhead {
            seq!["typeface"@, "map_typeface"@, "overmap_typeface"@, "gui_typeface"@]
        } else {
            seq!["typeface"@, "map_typeface"@, "overmap_typeface"@]
        }
    }

    pub fn supported_typeface_categories(&self) -> (r: &'static [&'static str])
        ensures
            r@.len() == self.typeface_categories_spec().len(),
            forall|i: int|
                0 <= i < r@.len() ==> r@[i]@ == self.typeface_categories_spec()[i],
    {
        match self {
            GameVariant::DarkDaysAhead => {
                let s: &'static [&'static str] = &[
                    "typeface",
                    "map_typeface",
                    "overmap_typeface",
                    "gui_typeface",
                ];
                assert(s@[0]@ == self.typeface_categories_spec()[0]);
                assert(s@[1]@ == self.typeface_categories_spec()[1]);
                assert(s@[2]@ == self.typeface_categories_spec()[2]);
                assert(s@[3]@ == self.typeface_categories_spec()[3]);
                s
            },
            _ => {
                let s: &'static [&'static str] = &["typeface", "map_typeface", "overmap_typeface"];
                assert(s@[0]@ == self.typeface_categories_spec()[0]);
                assert(s@[1]@ == self.typeface_categories_spec()[1]);
                assert(s@[2]@ == self.typeface_categories_spec()[2]);
                s
            },
        }
    }

    /// The variant that a stored identifier names, if any: the inverse
    /// of `id` on its range, and nothing on any other string.
    pub fn from_id(s: &str) -> (r: Option<GameVariant>)
        ensures
            s@ == GameVariant::DarkDaysAhead.id_spec() ==> r == Some(GameVariant::DarkDaysAhead),
            s@ == GameVariant::BrightNights.id_spec() ==> r == Some(GameVariant::BrightNights),
            s@ == GameVariant::TheLastGeneration.id_spec() ==> r == Some(
                GameVariant::TheLastGeneration,
            ),
            r matches Some(v) ==> s@ == v.id_spec(),
    {
        proof {
            reveal_strlit("DarkDaysAhead");
            reveal_strlit("BrightNights");
            reveal_strlit("TheLastGeneration");
            // the three identifiers have pairwise different lengths, so
            // at most one branch condition can hold of any input
            assert("DarkDaysAhead"@.len() == 13);
            assert("BrightNights"@.len() == 12);
            assert("TheLastGeneration"@.len() == 17);
        }
        if str_eq(s, "DarkDaysAhead") {
            Some(GameVariant::DarkDaysAhead)
        } else if str_eq(s, "BrightNights") {
            Some(GameVariant::BrightNights)
        } else if str_eq(s, "TheLastGeneration") {
            Some(GameVariant::TheLastGeneration)
        } else {
            None
        }
    }

    /// Every variant, in declaration order.
    pub fn all() -> (r: Vec<GameVariant>)
        ensures
            r@ =~= seq![
                GameVariant::DarkDaysAhead,
                GameVariant::BrightNights,
                GameVariant::TheLastGeneration,
            ],
    {
        vec![
            GameVariant::DarkDaysAhead,
            GameVariant::BrightNights,
            GameVariant::TheLastGeneration,
        ]
    }
}

/// A variant together with its display name, as handed to the UI layer.
#[derive(Debug, Clone)]
pub struct GameVariantInfo {
    pub id: GameVariant,
    pub name: String,
}

impl GameVariantInfo {
    pub fn from_variant(variant: GameVariant) -> (r: GameVariantInfo)
        ensures
            r.id == variant,
            r.name@ == variant.name_spec(),
    {
        GameVariantInfo { id: variant, name: String::from_str(variant.name()) }
    }
}

/// Failure while loading the stored variant ordering.
#[derive(Debug, Clone, PartialEq, Eq)]
pub enum GetGameVariantsInfoError {
    Get(String),
}

/// The variant list shown to the user: the stored ordering if there is
/// one, and every variant in declaration order otherwise, each paired
/// with its display name.
pub fn get_game_variants_info(ordered_variants: Vec<GameVariant>) -> (r: Vec<GameVariantInfo>)
    ensures
        ordered_variants@.len() == 0 ==> r@.len() == 3
            && r@[0].id == GameVariant::DarkDaysAhead
            && r@[1].id == GameVariant::BrightNights
            && r@[2].id == GameVariant::TheLastGeneration,
        ordered_variants@.len() > 0 ==> r@.len() == ordered_variants@.len()
            && forall|i: int| 0 <= i < r@.len() ==> r@[i].id == ordered_variants@[i],
        forall|i: int| 0 <= i < r@.len() ==> r@[i].name@ == r@[i].id.name_spec(),
{
    let variants_to_display = if ordered_variants.len() == 0 {
        GameVariant::all()
    } else {
        ordered_variants
    };
    let ghost chosen = variants_to_display@;
    let mut result: Vec<GameVariantInfo> = Vec::new();
    let mut i: usize = 0;
    while i < variants_to_display.len()
        invariant
            variants_to_display@ == chosen,
            i <= chosen.len(),
            result@.len() == i,
            forall|k: int| 0 <= k < i ==> result@[k].id == chosen[k],
            forall|k: int| 0 <= k < i ==> result@[k].name@ == result@[k].id.name_spec(),
        decreases chosen.len() - i,
    {
        let v = variants_to_display[i];
        result.push(GameVariantInfo::from_variant(v));
        i = i + 1;
    }
    result
}

} // verus!
