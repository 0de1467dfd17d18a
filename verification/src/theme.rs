//! Picking one of the built-in themes by its name.

use crate::traits::{next_in, next_of, prev_in, prev_of};
use iced_core::theme::Base;
use iced_core::Theme;
use vstd::prelude::*;
use vstd::string::StringSliceAdditionalSpecFns;

verus! {

/// The name of the built-in theme at a place of the theme list; `None` past
/// the end of the list.
pub uninterp spec fn builtin_theme_name(index: usize) -> Option<Seq<char>>;

/// `Theme::ALL` with `Base::name`: the name of the theme at the given place
/// of the list of built-in themes, and `None` where the list has ended. The
/// list is a slice, so no place is the largest number there is.
#[verifier::external_body]
fn theme_name_at(index: usize) -> (name: Option<&'static str>)
    ensures
        match name {
            Some(s) => builtin_theme_name(index) == Some(s@) && index < usize::MAX,
            None => builtin_theme_name(index).is_none(),
        },
{
    Theme::ALL.get(index).map(|theme| theme.name())
}

/// Error returned when a string is not the name of a theme; it holds the
/// string.
#[derive(Debug, Clone, PartialEq, Eq, Hash, PartialOrd, Ord)]
pub struct ThemeValueEnumFromStringError(pub String);

/// One of the built-in themes.
#[derive(Debug, Clone, Copy)]
pub struct ThemeValueEnum {
    /// Place in the list of built-in themes.
    index: usize,
    /// Name of the theme.
    name: &'static str,
}

/// An ASCII capital as its small letter, any other byte as it is.
pub open spec fn ascii_lower(byte: u8) -> u8 {
    if 0x41 <= byte <= 0x5a {
        (byte + 0x20) as u8
    } else {
        byte
    }
}

/// Whether two byte strings are the same, where wanted up to the case of
/// their ASCII letters.
pub open spec fn same_name(a: Seq<u8>, b: Seq<u8>, ignore_case: bool) -> bool {
    &&& a.len() == b.len()
    &&& forall|i: int|
        0 <= i < a.len() ==> if ignore_case {
            ascii_lower(#[trigger] a[i]) == ascii_lower(b[i])
        } else {
            a[i] == b[i]
        }
}

/// Whether the theme at a place of the list goes by the name `wanted`.
pub open spec fn theme_goes_by(index: usize, wanted: Seq<u8>, ignore_case: bool) -> bool {
    match builtin_theme_name(index) {
        Some(name) => same_name(vstd::utf8::encode_utf8(name), wanted, ignore_case),
        None => false,
    }
}

/// Whether the list of built-in themes has exactly `count` entries and none
/// of them goes by the name `wanted`.
pub open spec fn no_theme_goes_by(count: usize, wanted: Seq<u8>, ignore_case: bool) -> bool {
    &&& builtin_theme_name(count).is_none()
    &&& forall|j: usize|
        j < count ==> (#[trigger] builtin_theme_name(j)).is_some() && !theme_goes_by(
            j,
            wanted,
            ignore_case,
        )
}

/// Whether `all` is the list of built-in themes: it holds every theme at
/// its place, under its name, and the list ends where `all` does.
pub open spec fn lists_builtin_themes(all: Seq<ThemeValueEnum>) -> bool {
    &&& all.len() <= usize::MAX
    &&& builtin_theme_name(all.len() as usize).is_none()
    &&& forall|i: int|
        0 <= i < all.len() ==> (#[trigger] all[i]).index() == i && builtin_theme_name(i as usize)
            == Some(all[i].spec_name())
}

/// Compares two strings byte by byte, where wanted up to the case of their
/// ASCII letters.
pub fn names_match(a: &str, b: &str, ignore_case: bool) -> (same: bool)
    ensures
        same == same_name(a.spec_bytes(), b.spec_bytes(), ignore_case),
{
    let x = a.as_bytes();
    let y = b.as_bytes();
    if x.len() != y.len() {
        return false;
    }
    let mut i: usize = 0;
    while i < x.len()
        invariant
            x@ == a.spec_bytes(),
            y@ == b.spec_bytes(),
            x@.len() == y@.len(),
            i <= x@.len(),
            forall|k: int|
                0 <= k < i ==> if ignore_case {
                    ascii_lower(#[trigger] x@[k]) == ascii_lower(y@[k])
                } else {
                    x@[k] == y@[k]
                },
        decreases x@.len() - i,
    {
        let same = if ignore_case {
            lower(x[i]) == lower(y[i])
        } else {
            x[i] == y[i]
        };
        if !same {
            assert(!same_name(x@, y@, ignore_case)) by {
                if same_name(x@, y@, ignore_case) {
                    assert(ascii_lower(x@[i as int]) == ascii_lower(y@[i as int]) || !ignore_case);
                }
            }
            return false;
        }
        i += 1;
    }
    true
}

/// An ASCII capital as its small letter, any other byte as it is.
fn lower(byte: u8) -> (folded: u8)
    ensures
        folded == ascii_lower(byte),
{
    if 0x41 <= byte && byte <= 0x5a {
        byte + 0x20
    } else {
        byte
    }
}

impl ThemeValueEnum {
    /// Place of the theme in the list of built-in themes.
    pub closed spec fn spec_index(&self) -> usize {
        self.index
    }

    /// Name of the theme.
    pub closed spec fn spec_name(&self) -> Seq<char> {
        self.name@
    }

    /// Place of the theme in the list of built-in themes.
    #[verifier::when_used_as_spec(spec_index)]
    pub fn index(&self) -> (index: usize)
        ensures
            index == self.spec_index(),
    {
        self.index
    }

    /// Name of the theme.
    pub fn name(&self) -> (name: &'static str)
        ensures
            name@ == self.spec_name(),
    {
        self.name
    }

    /// The first built-in theme that goes by the given name, compared with
    /// or without regard to the case of ASCII letters; `None` when the whole
    /// list holds no such theme.
    pub fn lookup(input: &str, ignore_case: bool) -> (found: Option<ThemeValueEnum>)
        ensures
            match found {
                Some(theme) => {
                    &&& builtin_theme_name(theme.index()) == Some(theme.spec_name())
                    &&& theme_goes_by(theme.index(), input.spec_bytes(), ignore_case)
                    &&& forall|j: usize|
                        j < theme.index() ==> (#[trigger] builtin_theme_name(j)).is_some()
                            && !theme_goes_by(j, input.spec_bytes(), ignore_case)
                },
                None => exists|count: usize|
                    no_theme_goes_by(count, input.spec_bytes(), ignore_case),
            },
    {
        let mut index: usize = 0;
        loop
            invariant
                forall|j: usize|
                    j < index ==> (#[trigger] builtin_theme_name(j)).is_some() && !theme_goes_by(
                        j,
                        input.spec_bytes(),
                        ignore_case,
                    ),
            decreases usize::MAX - index,
        {
            match theme_name_at(index) {
                None => {
                    assert(no_theme_goes_by(index, input.spec_bytes(), ignore_case));
                    return None;
                },
                Some(name) => {
                    if names_match(name, input, ignore_case) {
                        return Some(ThemeValueEnum { index, name });
                    }
                    index += 1;
                },
            }
        }
    }

    /// The theme of the given name, compared without regard to the case of
    /// ASCII letters. A string that names no theme comes back in the error.
    pub fn from_str(s: &str) -> (r: Result<ThemeValueEnum, ThemeValueEnumFromStringError>)
        ensures
            match r {
                Ok(theme) => {
                    &&& builtin_theme_name(theme.index()) == Some(theme.spec_name())
                    &&& theme_goes_by(theme.index(), s.spec_bytes(), true)
                    &&& forall|j: usize|
                        j < theme.index() ==> (#[trigger] builtin_theme_name(j)).is_some()
                            && !theme_goes_by(j, s.spec_bytes(), true)
                },
                Err(e) => e.0@ == s@ && exists|count: usize|
                    no_theme_goes_by(count, s.spec_bytes(), true),
            },
    {
        match Self::lookup(s, true) {
            Some(theme) => Ok(theme),
            None => Err(ThemeValueEnumFromStringError(s.to_owned())),
        }
    }

    /// All built-in themes, in the order of their list.
    pub fn value_variants() -> (all: Vec<ThemeValueEnum>)
        ensures
            lists_builtin_themes(all@),
    {
        let mut all: Vec<ThemeValueEnum> = Vec::new();
        let mut index: usize = 0;
        loop
            invariant
                all@.len() == index,
                forall|i: int|
                    0 <= i < all@.len() ==> (#[trigger] all@[i]).index() == i
                        && builtin_theme_name(i as usize) == Some(all@[i].spec_name()),
            decreases usize::MAX - index,
        {
            match theme_name_at(index) {
                None => {
                    return all;
                },
                Some(name) => {
                    all.push(ThemeValueEnum { index, name });
                    index += 1;
                },
            }
        }
    }

    /// The variants that can be stepped through: all built-in themes.
    pub fn partial_variants() -> (all: Vec<ThemeValueEnum>)
        ensures
            lists_builtin_themes(all@),
    {
        Self::value_variants()
    }

    /// The theme after this one in the list of built-in themes, found by
    /// name; after the last theme, and for a theme that the list does not
    /// hold, the first. Were the list empty, the theme would stay as it is.
    pub fn partial_cycle_next(&self) -> (next: ThemeValueEnum)
        ensures
            exists|all: Seq<ThemeValueEnum>|
                #![trigger lists_builtin_themes(all)]
                lists_builtin_themes(all) && next == (if all.len() == 0 {
                    *self
                } else {
                    next_in(all, *self)
                }),
    {
        let all = Self::value_variants();
        if all.len() == 0 {
            *self
        } else {
            *next_of(all.as_slice(), self)
        }
    }

    /// The theme before this one in the list of built-in themes, found by
    /// name; before the first theme, and for a theme that the list does not
    /// hold, the last. Were the list empty, the theme would stay as it is.
    pub fn partial_cycle_prev(&self) -> (prev: ThemeValueEnum)
        ensures
            exists|all: Seq<ThemeValueEnum>|
                #![trigger lists_builtin_themes(all)]
                lists_builtin_themes(all) && prev == (if all.len() == 0 {
                    *self
                } else {
                    prev_in(all, *self)
                }),
    {
        let all = Self::value_variants();
        if all.len() == 0 {
            *self
        } else {
            *prev_of(all.as_slice(), self)
        }
    }
}

impl PartialEq for ThemeValueEnum {
    /// Themes are the same when their names are.
    fn eq(&self, other: &Self) -> (same: bool) {
        names_match(self.name, other.name, false)
    }
}

impl vstd::std_specs::cmp::PartialEqSpecImpl for ThemeValueEnum {
    open spec fn obeys_eq_spec() -> bool {
        true
    }

    open spec fn eq_spec(&self, other: &Self) -> bool {
        same_name(
            vstd::utf8::encode_utf8(self.spec_name()),
            vstd::utf8::encode_utf8(other.spec_name()),
            false,
        )
    }
}

} // verus!
