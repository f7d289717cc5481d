//! Country-name normalization and the id-to-country index a backend's
//! country table is compiled into.
//!
//! A backend names countries loosely ("U.S.A.", "Korea, South"); matching
//! them against ISO names takes a normal form: ASCII-lowercased, with a
//! fixed set of punctuation removed and whitespace runs collapsed to single
//! spaces. The index builder resolves each backend entry first through a
//! per-backend override table, then against the normalized ISO names.

use vstd::prelude::*;

use crate::text::{chars_to_string, is_space, is_space_char};

verus! {

/// The punctuation `norm` removes: straight and curly quotes, the acute
/// accent, commas, periods, hyphens, underscores and parentheses.
pub open spec fn is_norm_punct(c: char) -> bool {
    c == '\'' || c == '"' || c == '`' || c == ',' || c == '.' || c == '-' || c == '_' || c == '('
        || c == ')' || c == '\u{2018}' || c == '\u{2019}' || c == '\u{00B4}'
}

/// Whether `c` is punctuation `norm` removes.
pub fn is_punct(c: char) -> (b: bool)
    ensures
        b == is_norm_punct(c),
{
    c == '\'' || c == '"' || c == '`' || c == ',' || c == '.' || c == '-' || c == '_' || c == '('
        || c == ')' || c == '\u{2018}' || c == '\u{2019}' || c == '\u{00B4}'
}

/// `c` with an ASCII capital letter lowered; anything else unchanged.
pub open spec fn lower_char(c: char) -> char {
    if 'A' <= c && c <= 'Z' {
        (((c as u32) + 32) as u8) as char
    } else {
        c
    }
}

/// Lower an ASCII capital letter.
pub fn lower(c: char) -> (r: char)
    ensures
        r == lower_char(c),
{
    if 'A' <= c && c <= 'Z' {
        (((c as u32) + 32) as u8) as char
    } else {
        c
    }
}

/// The first pass of `norm`: punctuation removed, capitals lowered.
pub open spec fn cleaned(s: Seq<char>) -> Seq<char>
    decreases s.len(),
{
    if s.len() == 0 {
        Seq::empty()
    } else {
        let rest = cleaned(s.drop_last());
        if is_norm_punct(s.last()) {
            rest
        } else {
            rest.push(lower_char(s.last()))
        }
    }
}

/// The second pass of `norm`, from position `i` with the text built so
/// far: whitespace runs become single spaces, leading and trailing
/// whitespace disappears. `started` records whether a word was emitted,
/// `pending` whether a separating space is owed.
pub open spec fn collapse_from(
    s: Seq<char>,
    i: int,
    started: bool,
    pending: bool,
    out: Seq<char>,
) -> Seq<char>
    decreases s.len() - i,
{
    if i < 0 || i >= s.len() {
        out
    } else if is_space_char(s[i]) {
        collapse_from(s, i + 1, started, started, out)
    } else {
        let out2 = if pending {
            out.push(' ')
        } else {
            out
        };
        collapse_from(s, i + 1, true, false, out2.push(s[i]))
    }
}

/// The normal form of a backend's country name.
pub open spec fn norm_spec(s: Seq<char>) -> Seq<char> {
    collapse_from(cleaned(s), 0, false, false, Seq::empty())
}

/// Normalize a country name: ASCII-lowercase, remove the fixed punctuation
/// set, collapse whitespace runs to single spaces, drop leading and
/// trailing whitespace.
pub fn norm(s: &str) -> (r: String)
    ensures
        r@ == norm_spec(s@),
{
    let n = s.unicode_len();
    let mut kept: Vec<char> = Vec::new();
    let mut i: usize = 0;
    while i < n
        invariant
            0 <= i <= n == s@.len(),
            kept@ == cleaned(s@.subrange(0, i as int)),
        decreases n - i,
    {
        let c = s.get_char(i);
        proof {
            assert(s@.subrange(0, i + 1).drop_last() =~= s@.subrange(0, i as int));
            assert(s@.subrange(0, i + 1).last() == s@[i as int]);
        }
        if !is_punct(c) {
            kept.push(lower(c));
        }
        i += 1;
    }
    proof {
        assert(s@.subrange(0, n as int) =~= s@);
    }
    let m = kept.len();
    let mut out: Vec<char> = Vec::new();
    let mut started = false;
    let mut pending = false;
    let mut j: usize = 0;
    while j < m
        invariant
            0 <= j <= m == kept@.len(),
            !started ==> !pending,
            collapse_from(kept@, j as int, started, pending, out@) == norm_spec(s@),
            kept@ == cleaned(s@),
        decreases m - j,
    {
        let c = kept[j];
        if is_space(c) {
            if started {
                pending = true;
            }
        } else {
            if pending {
                out.push(' ');
                pending = false;
            }
            out.push(c);
            started = true;
        }
        j += 1;
    }
    chars_to_string(&out)
}

/// First-match lookup in an override table: the alpha-2 code paired with
/// this normalized name.
pub open spec fn override_lookup(table: Seq<(String, String)>, key: Seq<char>) -> Option<
    Seq<char>,
>
    decreases table.len(),
{
    if table.len() == 0 {
        None
    } else if table[0].0@ == key {
        Some(table[0].1@)
    } else {
        override_lookup(table.drop_first(), key)
    }
}

/// First-match lookup against ISO names: the alpha-2 code of the first
/// entry whose normalized name equals this normalized name.
pub open spec fn iso_lookup(table: Seq<(String, String)>, key: Seq<char>) -> Option<Seq<char>>
    decreases table.len(),
{
    if table.len() == 0 {
        None
    } else if norm_spec(table[0].0@) == key {
        Some(table[0].1@)
    } else {
        iso_lookup(table.drop_first(), key)
    }
}

/// How one backend country name resolves: overrides first, ISO names next.
pub open spec fn resolve_name(
    overrides: Seq<(String, String)>,
    iso_names: Seq<(String, String)>,
    name: Seq<char>,
) -> Option<Seq<char>> {
    let key = norm_spec(name);
    match override_lookup(overrides, key) {
        Some(alpha2) => Some(alpha2),
        None => iso_lookup(iso_names, key),
    }
}

/// The index a backend country table compiles into: each entry that
/// resolves, in order, paired with its alpha-2 code; entries that resolve
/// nowhere are dropped.
pub open spec fn build_index_spec(
    entries: Seq<(u16, String)>,
    overrides: Seq<(String, String)>,
    iso_names: Seq<(String, String)>,
) -> Seq<(u16, Seq<char>)>
    decreases entries.len(),
{
    if entries.len() == 0 {
        Seq::empty()
    } else {
        let rest = build_index_spec(entries.drop_last(), overrides, iso_names);
        let last = entries.last();
        match resolve_name(overrides, iso_names, last.1@) {
            Some(alpha2) => rest.push((last.0, alpha2)),
            None => rest,
        }
    }
}

/// First entry with this id, if any.
pub open spec fn id_lookup(index: Seq<(u16, Seq<char>)>, id: u16) -> Option<Seq<char>>
    decreases index.len(),
{
    if index.len() == 0 {
        None
    } else if index[0].0 == id {
        Some(index[0].1)
    } else {
        id_lookup(index.drop_first(), id)
    }
}

/// First entry with this alpha-2 code, if any.
pub open spec fn alpha2_lookup(index: Seq<(u16, Seq<char>)>, alpha2: Seq<char>) -> Option<u16>
    decreases index.len(),
{
    if index.len() == 0 {
        None
    } else if index[0].1 == alpha2 {
        Some(index[0].0)
    } else {
        alpha2_lookup(index.drop_first(), alpha2)
    }
}

/// The two-way mapping between a backend's numeric country ids and ISO
/// alpha-2 codes, compiled once from the backend's table.
#[derive(Debug, Clone)]
pub struct CountryIndex {
    entries: Vec<(u16, String)>,
}

impl View for CountryIndex {
    type V = Seq<(u16, Seq<char>)>;

    closed spec fn view(&self) -> Seq<(u16, Seq<char>)> {
        self.entries@.map_values(|e: (u16, String)| (e.0, e.1@))
    }
}

impl CountryIndex {
    /// Compile a backend's `(id, name)` table: each name resolves through
    /// the override table first, then against the normalized ISO names;
    /// names that resolve nowhere are dropped.
    pub fn build(
        entries: &Vec<(u16, String)>,
        overrides: &Vec<(String, String)>,
        iso_names: &Vec<(String, String)>,
    ) -> (r: Self)
        ensures
            r@ == build_index_spec(entries@, overrides@, iso_names@),
    {
        let n = entries.len();
        let mut out: Vec<(u16, String)> = Vec::new();
        let mut i: usize = 0;
        while i < n
            invariant
                0 <= i <= n == entries@.len(),
                out@.map_values(|e: (u16, String)| (e.0, e.1@)) == build_index_spec(
                    entries@.subrange(0, i as int),
                    overrides@,
                    iso_names@,
                ),
            decreases n - i,
        {
            let entry = &entries[i];
            let key = norm(entry.1.as_str());
            let ghost pre = out@;
            let resolved: Option<String> = match lookup_override(overrides, key.as_str()) {
                Some(alpha2) => Some(alpha2),
                None => lookup_iso(iso_names, key.as_str()),
            };
            proof {
                assert(entries@.subrange(0, i + 1).drop_last() =~= entries@.subrange(
                    0,
                    i as int,
                ));
                assert(entries@.subrange(0, i + 1).last() == entries@[i as int]);
            }
            match resolved {
                Some(alpha2) => {
                    out.push((entry.0, alpha2));
                    proof {
                        assert(out@.map_values(|e: (u16, String)| (e.0, e.1@)) =~= pre.map_values(
                            |e: (u16, String)| (e.0, e.1@),
                        ).push((entries@[i as int].0, out@.last().1@)));
                    }
                },
                None => {},
            }
            i += 1;
        }
        proof {
            assert(entries@.subrange(0, n as int) =~= entries@);
        }
        CountryIndex { entries: out }
    }

    /// How many backend ids resolved.
    pub fn len(&self) -> (r: usize)
        ensures
            r == self@.len(),
    {
        self.entries.len()
    }

    /// The alpha-2 code this backend id maps to, if it resolved.
    pub fn from_sms_id(&self, id: u16) -> (r: Option<String>)
        ensures
            match (r, id_lookup(self@, id)) {
                (Some(a), Some(b)) => a@ == b,
                (None, None) => true,
                _ => false,
            },
    {
        let n = self.entries.len();
        let mut i: usize = 0;
        proof {
            assert(self@.skip(0) =~= self@);
        }
        while i < n
            invariant
                0 <= i <= n == self@.len(),
                n == self.entries@.len(),
                id_lookup(self@, id) == id_lookup(self@.skip(i as int), id),
            decreases n - i,
        {
            proof {
                assert(self@.skip(i as int).drop_first() =~= self@.skip(i as int + 1));
                assert(self@.skip(i as int)[0] == self@[i as int]);
                assert(self@[i as int] == (self.entries@[i as int].0, self.entries@[i as int].1@));
            }
            let entry = &self.entries[i];
            if entry.0 == id {
                return Some(entry.1.clone());
            }
            i += 1;
        }
        proof {
            assert(self@.skip(n as int) =~= Seq::<(u16, Seq<char>)>::empty());
        }
        None
    }

    /// The backend id this alpha-2 code maps to, if any.
    pub fn sms_id_of(&self, alpha2: &str) -> (r: Option<u16>)
        ensures
            r == alpha2_lookup(self@, alpha2@),
    {
        let n = self.entries.len();
        let mut i: usize = 0;
        proof {
            assert(self@.skip(0) =~= self@);
        }
        while i < n
            invariant
                0 <= i <= n == self@.len(),
                n == self.entries@.len(),
                alpha2_lookup(self@, alpha2@) == alpha2_lookup(self@.skip(i as int), alpha2@),
            decreases n - i,
        {
            proof {
                assert(self@.skip(i as int).drop_first() =~= self@.skip(i as int + 1));
                assert(self@.skip(i as int)[0] == self@[i as int]);
                assert(self@[i as int] == (self.entries@[i as int].0, self.entries@[i as int].1@));
            }
            let entry = &self.entries[i];
            if crate::text::str_eq(entry.1.as_str(), alpha2) {
                return Some(entry.0);
            }
            i += 1;
        }
        proof {
            assert(self@.skip(n as int) =~= Seq::<(u16, Seq<char>)>::empty());
        }
        None
    }
}

/// First-match lookup in an override table.
pub fn lookup_override(table: &Vec<(String, String)>, key: &str) -> (r: Option<String>)
    ensures
        match (r, override_lookup(table@, key@)) {
            (Some(a), Some(b)) => a@ == b,
            (None, None) => true,
            _ => false,
        },
{
    let n = table.len();
    let mut i: usize = 0;
    proof {
        assert(table@.skip(0) =~= table@);
    }
    while i < n
        invariant
            0 <= i <= n == table@.len(),
            override_lookup(table@, key@) == override_lookup(table@.skip(i as int), key@),
        decreases n - i,
    {
        proof {
            assert(table@.skip(i as int).drop_first() =~= table@.skip(i as int + 1));
            assert(table@.skip(i as int)[0] == table@[i as int]);
        }
        let entry = &table[i];
        if crate::text::str_eq(entry.0.as_str(), key) {
            return Some(entry.1.clone());
        }
        i += 1;
    }
    proof {
        assert(table@.skip(n as int) =~= Seq::<(String, String)>::empty());
    }
    None
}

/// First-match lookup against normalized ISO names.
pub fn lookup_iso(table: &Vec<(String, String)>, key: &str) -> (r: Option<String>)
    ensures
        match (r, iso_lookup(table@, key@)) {
            (Some(a), Some(b)) => a@ == b,
            (None, None) => true,
            _ => false,
        },
{
    let n = table.len();
    let mut i: usize = 0;
    proof {
        assert(table@.skip(0) =~= table@);
    }
    while i < n
        invariant
            0 <= i <= n == table@.len(),
            iso_lookup(table@, key@) == iso_lookup(table@.skip(i as int), key@),
        decreases n - i,
    {
        proof {
            assert(table@.skip(i as int).drop_first() =~= table@.skip(i as int + 1));
            assert(table@.skip(i as int)[0] == table@[i as int]);
        }
        let entry = &table[i];
        let name_key = norm(entry.0.as_str());
        if crate::text::str_eq(name_key.as_str(), key) {
            return Some(entry.1.clone());
        }
        i += 1;
    }
    proof {
        assert(table@.skip(n as int) =~= Seq::<(String, String)>::empty());
    }
    None
}

} // verus!
