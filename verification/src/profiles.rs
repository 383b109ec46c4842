//! Profile discovery: which profile names the operator can select, and
//! where each comes from.
//!
//! A name can come from ambient environment credentials, from a section
//! `[name]` of the credentials file, or from a section `[profile name]` of
//! the config file (the word `profile` compared case-insensitively).  The
//! surrounding process reads the environment and the two files; the
//! parsing of their contents and the precedence between the three origins
//! live here.

use vstd::prelude::*;
use vstd::string::StrSliceExecFns;

use crate::appstate::{
    name_entries_map, unique_entry_names, ProfileNameEntry, ProfileSource, ProfilesState,
};

verus! {

/// The first index at or after `from` holding `c`, or `-1`.
pub open spec fn first_index_from(s: Seq<char>, c: char, from: int) -> int
    decreases s.len() - from,
{
    if from < 0 || from >= s.len() {
        -1
    } else if s[from] == c {
        from
    } else {
        first_index_from(s, c, from + 1)
    }
}

/// Characterization of [`first_index_from`].
pub proof fn lemma_first_index_from(s: Seq<char>, c: char, from: int)
    requires
        0 <= from <= s.len(),
    ensures
        ({
            let r = first_index_from(s, c, from);
            &&& r == -1 ==> forall|k: int| from <= k < s.len() ==> s[k] != c
            &&& r != -1 ==> from <= r < s.len() && s[r] == c && (forall|k: int|
                from <= k < r ==> s[k] != c)
        }),
    decreases s.len() - from,
{
    if from < s.len() && s[from] != c {
        lemma_first_index_from(s, c, from + 1);
    }
}

/// The last index holding `c`, or `-1`.
pub open spec fn last_index_of(s: Seq<char>, c: char) -> int
    decreases s.len(),
{
    if s.len() == 0 {
        -1
    } else if s.last() == c {
        s.len() - 1
    } else {
        last_index_of(s.drop_last(), c)
    }
}

/// Characterization of [`last_index_of`].
pub proof fn lemma_last_index_of(s: Seq<char>, c: char)
    ensures
        ({
            let r = last_index_of(s, c);
            &&& r == -1 ==> forall|k: int| 0 <= k < s.len() ==> s[k] != c
            &&& r != -1 ==> 0 <= r < s.len() && s[r] == c && (forall|k: int|
                r < k < s.len() ==> s[k] != c)
        }),
    decreases s.len(),
{
    if s.len() > 0 && s.last() != c {
        lemma_last_index_of(s.drop_last(), c);
        let r = last_index_of(s.drop_last(), c);
        if r == -1 {
            assert forall|k: int| 0 <= k < s.len() implies s[k] != c by {
                if k < s.len() - 1 {
                    assert(s.drop_last()[k] == s[k]);
                }
            }
        } else {
            assert(s.drop_last()[r] == s[r]);
            assert forall|k: int| r < k < s.len() implies s[k] != c by {
                if k < s.len() - 1 {
                    assert(s.drop_last()[k] == s[k]);
                }
            }
        }
    }
}

/// Case-insensitive equality of two characters, folding only the ASCII
/// letters.
pub open spec fn ci_char_eq(a: char, b: char) -> bool {
    ||| a == b
    ||| (65 <= a as u32 <= 90 && a as u32 + 32 == b as u32)
    ||| (65 <= b as u32 <= 90 && b as u32 + 32 == a as u32)
}

/// Whether a config-file section header `[profile ` starts at index `i`
/// (the word compared case-insensitively).
pub open spec fn profile_header_at(s: Seq<char>, i: int) -> bool {
    &&& 0 <= i
    &&& i + 9 <= s.len()
    &&& s[i] == '['
    &&& ci_char_eq(s[i + 1], 'p')
    &&& ci_char_eq(s[i + 2], 'r')
    &&& ci_char_eq(s[i + 3], 'o')
    &&& ci_char_eq(s[i + 4], 'f')
    &&& ci_char_eq(s[i + 5], 'i')
    &&& ci_char_eq(s[i + 6], 'l')
    &&& ci_char_eq(s[i + 7], 'e')
    &&& s[i + 8] == ' '
}

/// The first index at or after `from` where a `[profile ` header starts,
/// or `-1`.
pub open spec fn first_profile_header_from(s: Seq<char>, from: int) -> int
    decreases s.len() - from,
{
    if from < 0 || from + 9 > s.len() {
        -1
    } else if profile_header_at(s, from) {
        from
    } else {
        first_profile_header_from(s, from + 1)
    }
}

/// Characterization of [`first_profile_header_from`].
pub proof fn lemma_first_profile_header_from(s: Seq<char>, from: int)
    requires
        0 <= from,
    ensures
        ({
            let r = first_profile_header_from(s, from);
            &&& r == -1 ==> forall|k: int| from <= k ==> !profile_header_at(s, k)
            &&& r != -1 ==> from <= r && profile_header_at(s, r) && (forall|k: int|
                from <= k < r ==> !profile_header_at(s, k))
        }),
    decreases s.len() - from,
{
    if from + 9 <= s.len() && !profile_header_at(s, from) {
        lemma_first_profile_header_from(s, from + 1);
    }
}

/// What a credentials-file line contributes: the text between the first
/// `[` and a closing `]` at the very end of the line.
pub open spec fn spec_bracket_capture(l: Seq<char>) -> Option<Seq<char>> {
    let i = first_index_from(l, '[', 0);
    if l.len() >= 1 && l.last() == ']' && 0 <= i && i < l.len() - 1 {
        Some(l.subrange(i + 1, l.len() - 1))
    } else {
        None
    }
}

/// What a config-file line contributes: the text between the first
/// `[profile ` header and the last `]` of the line.
pub open spec fn spec_profile_capture(l: Seq<char>) -> Option<Seq<char>> {
    let i = first_profile_header_from(l, 0);
    let j = last_index_of(l, ']');
    if 0 <= i && i + 9 <= j {
        Some(l.subrange(i + 9, j))
    } else {
        None
    }
}

/// What one line contributes under the chosen grammar.
pub open spec fn spec_line_capture(l: Seq<char>, config_style: bool) -> Option<Seq<char>> {
    if config_style {
        spec_profile_capture(l)
    } else {
        spec_bracket_capture(l)
    }
}

/// The lines of a text, split on `'\n'` (always at least one line).
pub open spec fn spec_split_lines(s: Seq<char>) -> Seq<Seq<char>>
    decreases s.len(),
{
    let j = first_index_from(s, '\n', 0);
    if j < 0 || j >= s.len() {
        seq![s]
    } else {
        seq![s.subrange(0, j)] + spec_split_lines(s.subrange(j + 1, s.len() as int))
    }
}

/// The captures of a sequence of lines, in order.
pub open spec fn spec_captures(lines: Seq<Seq<char>>, config_style: bool) -> Seq<Seq<char>>
    decreases lines.len(),
{
    if lines.len() == 0 {
        Seq::empty()
    } else {
        (match spec_line_capture(lines[0], config_style) {
            Some(c) => seq![c],
            None => Seq::empty(),
        }) + spec_captures(lines.drop_first(), config_style)
    }
}

/// First occurrences kept, later duplicates dropped.
pub open spec fn spec_dedup(s: Seq<Seq<char>>) -> Seq<Seq<char>>
    decreases s.len(),
{
    if s.len() == 0 {
        Seq::empty()
    } else {
        let r = spec_dedup(s.drop_last());
        if r.contains(s.last()) {
            r
        } else {
            r.push(s.last())
        }
    }
}

/// The profile names a file's content contributes, in order of first
/// occurrence.
pub open spec fn spec_extracted_profiles(content: Seq<char>, config_style: bool) -> Seq<
    Seq<char>,
> {
    spec_dedup(spec_captures(spec_split_lines(content), config_style))
}

/// Case-insensitive equality of two characters (ASCII letters folded).
fn ci_eq(a: char, b: char) -> (r: bool)
    ensures
        r == ci_char_eq(a, b),
{
    a == b || (65 <= a as u32 && a as u32 <= 90 && a as u32 + 32 == b as u32) || (65 <= b as u32
        && b as u32 <= 90 && b as u32 + 32 == a as u32)
}

/// The first index at or after `from` holding `c`.
fn find_char_from(s: &str, c: char, from: usize, n: usize) -> (r: Option<usize>)
    requires
        n == s@.len(),
        from <= n,
    ensures
        match r {
            Some(i) => from <= i < n && s@[i as int] == c && (forall|k: int|
                from <= k < i ==> s@[k] != c),
            None => forall|k: int| from <= k < n ==> s@[k] != c,
        },
{
    let mut i = from;
    while i < n
        invariant
            from <= i <= n,
            n == s@.len(),
            forall|k: int| from <= k < i ==> s@[k] != c,
        decreases n - i,
    {
        if s.get_char(i) == c {
            return Some(i);
        }
        i = i + 1;
    }
    None
}

/// The first index where a `[profile ` header starts.
fn find_profile_header(s: &str, n: usize) -> (r: Option<usize>)
    requires
        n == s@.len(),
    ensures
        match r {
            Some(i) => first_profile_header_from(s@, 0) == i && i + 9 <= n,
            None => first_profile_header_from(s@, 0) == -1,
        },
{
    if n < 9 {
        proof {
            assert(forall|k: int| 0 <= k ==> !profile_header_at(s@, k));
            lemma_first_profile_header_from(s@, 0);
        }
        return None;
    }
    let mut i: usize = 0;
    while i <= n - 9
        invariant
            i <= n,
            n == s@.len(),
            9 <= n,
            forall|k: int| 0 <= k < i ==> !profile_header_at(s@, k),
        decreases n - i,
    {
        let hit = s.get_char(i) == '[' && ci_eq(s.get_char(i + 1), 'p') && ci_eq(
            s.get_char(i + 2),
            'r',
        ) && ci_eq(s.get_char(i + 3), 'o') && ci_eq(s.get_char(i + 4), 'f') && ci_eq(
            s.get_char(i + 5),
            'i',
        ) && ci_eq(s.get_char(i + 6), 'l') && ci_eq(s.get_char(i + 7), 'e') && s.get_char(i + 8)
            == ' ';
        if hit {
            proof {
                assert(profile_header_at(s@, i as int));
                lemma_first_profile_header_from(s@, 0);
                let r = first_profile_header_from(s@, 0);
                if r == -1 {
                    assert(!profile_header_at(s@, i as int));
                }
                if r < i {
                    assert(!profile_header_at(s@, r));
                }
                if r > i {
                    assert(!profile_header_at(s@, i as int));
                }
            }
            return Some(i);
        }
        proof {
            assert(!profile_header_at(s@, i as int));
        }
        i = i + 1;
    }
    proof {
        assert forall|k: int| 0 <= k implies !profile_header_at(s@, k) by {
            if k + 9 <= s@.len() {
                assert(k < i);
            }
        }
        lemma_first_profile_header_from(s@, 0);
    }
    None
}

/// The last index holding `c`.
fn find_last_char(s: &str, c: char, n: usize) -> (r: Option<usize>)
    requires
        n == s@.len(),
    ensures
        match r {
            Some(i) => i < n && last_index_of(s@, c) == i,
            None => last_index_of(s@, c) == -1,
        },
{
    let mut i = n;
    while i > 0
        invariant
            i <= n,
            n == s@.len(),
            forall|k: int| i <= k < n ==> s@[k] != c,
        decreases i,
    {
        i = i - 1;
        if s.get_char(i) == c {
            proof {
                lemma_last_index_of(s@, c);
                let r = last_index_of(s@, c);
                if r == -1 {
                    assert(s@[i as int] != c);
                }
                if r < i {
                    assert(s@[i as int] != c);
                }
                if r > i {
                    assert(s@[r] != c);
                }
            }
            return Some(i);
        }
    }
    proof {
        lemma_last_index_of(s@, c);
        let r = last_index_of(s@, c);
        if r != -1 {
            assert(s@[r] != c);
        }
    }
    None
}

/// The capture of one credentials-file line.
fn bracket_capture(line: &str) -> (r: Option<String>)
    ensures
        r.deep_view() == spec_bracket_capture(line@),
{
    let n = line.unicode_len();
    if n == 0 {
        return None;
    }
    if line.get_char(n - 1) != ']' {
        return None;
    }
    match find_char_from(line, '[', 0, n) {
        Some(i) => {
            proof {
                lemma_first_index_from(line@, '[', 0);
                let r = first_index_from(line@, '[', 0);
                if r == -1 {
                    assert(line@[i as int] != '[');
                }
                if r < i {
                    assert(line@[r] == '[');
                }
                if r > i {
                    assert(line@[i as int] != '[');
                }
                assert(r == i);
                assert(i < n - 1) by {
                    assert(line@[n - 1] == ']');
                    assert(line@[i as int] == '[');
                }
            }
            let cap = line.substring_char(i + 1, n - 1);
            Some(cap.to_owned())
        },
        None => {
            proof {
                lemma_first_index_from(line@, '[', 0);
                let r = first_index_from(line@, '[', 0);
                if r != -1 {
                    assert(line@[r] != '[');
                }
            }
            None
        },
    }
}

/// The capture of one config-file line.
fn profile_capture(line: &str) -> (r: Option<String>)
    ensures
        r.deep_view() == spec_profile_capture(line@),
{
    let n = line.unicode_len();
    let i = match find_profile_header(line, n) {
        Some(i) => i,
        None => {
            return None;
        },
    };
    match find_last_char(line, ']', n) {
        Some(j) => {
            if i + 9 <= j {
                let cap = line.substring_char(i + 9, j);
                Some(cap.to_owned())
            } else {
                None
            }
        },
        None => None,
    }
}

/// Whether the collection already holds this name.
fn contains_string(v: &Vec<String>, x: &String) -> (r: bool)
    ensures
        r == v.deep_view().contains(x@),
{
    let mut i: usize = 0;
    while i < v.len()
        invariant
            i <= v@.len(),
            forall|k: int| 0 <= k < i ==> v.deep_view()[k] != x@,
        decreases v@.len() - i,
    {
        let hit = v[i] == *x;
        proof {
            assert(v.deep_view()[i as int] == v@[i as int]@);
        }
        if hit {
            return true;
        }
        i = i + 1;
    }
    assert(forall|k: int| 0 <= k < v.deep_view().len() ==> v.deep_view()[k] != x@);
    false
}

/// The profile names a file's content declares, in order of first
/// occurrence, without duplicates.
pub fn extract_profiles_from_file(content: &str, config_style: bool) -> (r: Vec<String>)
    ensures
        r.deep_view() == spec_extracted_profiles(content@, config_style),
{
    let n = content.unicode_len();
    let mut caps: Vec<String> = Vec::new();
    let mut pos: usize = 0;
    let ghost whole = spec_captures(spec_split_lines(content@), config_style);
    proof {
        assert(content@.subrange(0, n as int) =~= content@);
        assert(caps.deep_view() =~= Seq::<Seq<char>>::empty());
        assert(whole =~= caps.deep_view() + spec_captures(
            spec_split_lines(content@.subrange(0, n as int)),
            config_style,
        ));
    }
    let mut done = false;
    while !done
        invariant
            pos <= n,
            n == content@.len(),
            whole == spec_captures(spec_split_lines(content@), config_style),
            !done ==> whole =~= caps.deep_view() + spec_captures(
                spec_split_lines(content@.subrange(pos as int, n as int)),
                config_style,
            ),
            done ==> whole =~= caps.deep_view(),
        decreases n - pos + (if done { 0int } else { 1int }),
    {
        let ghost rem = content@.subrange(pos as int, n as int);
        let ghost b0 = caps.deep_view();
        let found = find_char_from(content, '\n', pos, n);
        let line_end = match found {
            Some(j) => j,
            None => n,
        };
        let ghost j = first_index_from(rem, '\n', 0);
        proof {
            lemma_first_index_from(rem, '\n', 0);
            assert(forall|k: int| 0 <= k < rem.len() ==> rem[k] == content@[pos + k]);
            match found {
                Some(fj) => {
                    let jr = fj - pos;
                    assert(rem[jr] == '\n');
                    assert(forall|k: int| 0 <= k < jr ==> rem[k] != '\n');
                    if j == -1 {
                        assert(rem[jr] != '\n');
                    }
                    if j < jr {
                        assert(rem[j] == '\n');
                    }
                    if j > jr {
                        assert(rem[jr] != '\n');
                    }
                    assert(j == jr);
                },
                None => {
                    if j != -1 {
                        assert(rem[j] == '\n');
                        assert(rem[j] == content@[pos + j]);
                        assert(content@[pos + j] != '\n');
                    }
                    assert(j == -1);
                },
            }
        }
        let line = content.substring_char(pos, line_end);
        proof {
            if j == -1 {
                assert(line@ =~= rem);
            } else {
                assert(line@ =~= rem.subrange(0, j));
            }
        }
        let ghost lines = spec_split_lines(rem);
        match spec_line_capture_exec(line, config_style) {
            Some(cap) => {
                caps.push(cap);
            },
            None => {},
        }
        proof {
            assert(caps.deep_view() =~= b0 + (match spec_line_capture(line@, config_style) {
                Some(c) => seq![c],
                None => Seq::<Seq<char>>::empty(),
            }));
        }
        if line_end == n {
            done = true;
            proof {
                assert(j == -1) by {
                    if j != -1 {
                        assert(0 <= j < rem.len());
                        assert(rem[j] == '\n');
                    }
                }
                assert(lines =~= seq![rem]);
                assert(lines[0] == rem);
                assert(lines.drop_first().len() == 0);
                assert(spec_captures(lines.drop_first(), config_style)
                    =~= Seq::<Seq<char>>::empty());
                assert(spec_captures(lines, config_style) =~= (match spec_line_capture(
                    rem,
                    config_style,
                ) {
                    Some(c) => seq![c],
                    None => Seq::<Seq<char>>::empty(),
                }));
                assert(line@ =~= rem);
                assert(whole =~= caps.deep_view());
            }
        } else {
            proof {
                assert(found is Some);
                assert(0 <= j < rem.len());
                let tail = rem.subrange(j + 1, rem.len() as int);
                assert(lines == seq![rem.subrange(0, j)] + spec_split_lines(tail));
                assert(lines.len() >= 1);
                assert(lines[0] == rem.subrange(0, j));
                assert(lines.drop_first() =~= spec_split_lines(tail));
                assert(spec_captures(lines, config_style) =~= (match spec_line_capture(
                    lines[0],
                    config_style,
                ) {
                    Some(c) => seq![c],
                    None => Seq::<Seq<char>>::empty(),
                }) + spec_captures(spec_split_lines(tail), config_style));
                assert(line@ =~= lines[0]);
                assert(tail =~= content@.subrange(line_end + 1, n as int));
                assert(whole =~= caps.deep_view() + spec_captures(
                    spec_split_lines(content@.subrange(line_end + 1, n as int)),
                    config_style,
                ));
            }
            pos = line_end + 1;
        }
    }
    let mut r: Vec<String> = Vec::new();
    let mut i: usize = 0;
    while i < caps.len()
        invariant
            i <= caps@.len(),
            r.deep_view() =~= spec_dedup(caps.deep_view().take(i as int)),
        decreases caps@.len() - i,
    {
        proof {
            assert(caps.deep_view().take(i as int + 1).drop_last() =~= caps.deep_view().take(
                i as int,
            ));
            assert(caps.deep_view().take(i as int + 1).last() == caps.deep_view()[i as int]);
            assert(caps.deep_view()[i as int] == caps@[i as int]@);
        }
        if !contains_string(&r, &caps[i]) {
            r.push(caps[i].clone());
        }
        proof {
            assert(r.deep_view() =~= spec_dedup(caps.deep_view().take(i as int + 1)));
        }
        i = i + 1;
    }
    proof {
        assert(caps.deep_view().take(caps@.len() as int) =~= caps.deep_view());
        assert(whole =~= caps.deep_view());
    }
    r
}

/// The capture of one line under the chosen grammar.
fn spec_line_capture_exec(line: &str, config_style: bool) -> (r: Option<String>)
    ensures
        r.deep_view() == spec_line_capture(line@, config_style),
{
    if config_style {
        profile_capture(line)
    } else {
        bracket_capture(line)
    }
}

/// The ambient-credentials profile name: present only when all three
/// environment values are set, and then named after the access key.
pub open spec fn spec_profile_from_env(
    access_key: Seq<char>,
    secret_key: Seq<char>,
    region: Seq<char>,
) -> Option<Seq<char>> {
    if access_key.len() == 0 || secret_key.len() == 0 || region.len() == 0 {
        None
    } else {
        Some(access_key)
    }
}

/// See [`spec_profile_from_env`].  The values are the contents of the
/// ambient credential variables, empty when unset.
pub fn get_profile_from_env(access_key: String, secret_key: String, region: String) -> (r: Option<
    String,
>)
    ensures
        r.deep_view() == spec_profile_from_env(access_key@, secret_key@, region@),
{
    if access_key.as_str().is_empty() || secret_key.as_str().is_empty()
        || region.as_str().is_empty() {
        None
    } else {
        Some(access_key)
    }
}

/// All names of one origin folded into the directory; later names win.
pub open spec fn spec_insert_all(
    m: Map<Seq<char>, ProfileSource>,
    names: Seq<Seq<char>>,
    source: ProfileSource,
) -> Map<Seq<char>, ProfileSource>
    decreases names.len(),
{
    if names.len() == 0 {
        m
    } else {
        spec_insert_all(m, names.drop_last(), source).insert(names.last(), source)
    }
}

/// The discovered directory: environment first, then the credentials
/// file, then the config file — a later origin overrides an earlier one
/// for the same name.
pub open spec fn spec_available_profiles(
    env_profile: Option<Seq<char>>,
    credentials_content: Option<Seq<char>>,
    config_content: Option<Seq<char>>,
) -> Map<Seq<char>, ProfileSource> {
    let m0 = Map::<Seq<char>, ProfileSource>::empty();
    let m1 = match env_profile {
        Some(n) => m0.insert(n, ProfileSource::Environment),
        None => m0,
    };
    let m2 = match credentials_content {
        Some(c) => spec_insert_all(
            m1,
            spec_extracted_profiles(c, false),
            ProfileSource::CredentialsFile,
        ),
        None => m1,
    };
    match config_content {
        Some(c) => spec_insert_all(m2, spec_extracted_profiles(c, true), ProfileSource::ConfigFile),
        None => m2,
    }
}

/// Fold one origin's names into the directory.
fn insert_names(state: &mut ProfilesState, names: &Vec<String>, source: ProfileSource)
    requires
        old(state).wf(),
    ensures
        final(state).wf(),
        final(state).profiles == old(state).profiles,
        final(state)@.profile_names == spec_insert_all(
            old(state)@.profile_names,
            names.deep_view(),
            source,
        ),
{
    let ghost m0 = state@.profile_names;
    let mut i: usize = 0;
    while i < names.len()
        invariant
            i <= names@.len(),
            state.wf(),
            state.profiles == old(state).profiles,
            state@.profile_names =~= spec_insert_all(m0, names.deep_view().take(i as int), source),
        decreases names@.len() - i,
    {
        state.insert_name_entry(ProfileNameEntry { name: names[i].clone(), source });
        proof {
            assert(names.deep_view().take(i as int + 1).drop_last() =~= names.deep_view().take(
                i as int,
            ));
            assert(names.deep_view().take(i as int + 1).last() == names.deep_view()[i as int]);
        }
        i = i + 1;
    }
    proof {
        assert(names.deep_view().take(names@.len() as int) =~= names.deep_view());
    }
}

/// The directory of discoverable profile names with their origins,
/// assembled from the ambient-credentials name and the contents of the
/// credentials and config files (each absent when unreadable).
pub fn get_available_profiles(
    env_profile: Option<String>,
    credentials_content: Option<&str>,
    config_content: Option<&str>,
) -> (r: Vec<ProfileNameEntry>)
    ensures
        unique_entry_names(r@),
        name_entries_map(r@) == spec_available_profiles(
            env_profile.deep_view(),
            credentials_content.deep_view(),
            config_content.deep_view(),
        ),
{
    let mut state = ProfilesState { profile_names: Vec::new(), profiles: Vec::new() };
    assert(state@.profile_names =~= Map::<Seq<char>, ProfileSource>::empty());
    match env_profile {
        Some(name) => {
            state.insert_name_entry(ProfileNameEntry { name, source: ProfileSource::Environment });
        },
        None => {},
    }
    match credentials_content {
        Some(content) => {
            let names = extract_profiles_from_file(content, false);
            insert_names(&mut state, &names, ProfileSource::CredentialsFile);
        },
        None => {},
    }
    match config_content {
        Some(content) => {
            let names = extract_profiles_from_file(content, true);
            insert_names(&mut state, &names, ProfileSource::ConfigFile);
        },
        None => {},
    }
    let ProfilesState { profile_names, profiles: _ } = state;
    profile_names
}

/// Where a directory path and a file name join.
pub open spec fn spec_join_full_path(path: Seq<char>, file_name: Seq<char>) -> Seq<char> {
    if path.len() == 0 {
        file_name
    } else if path.last() == '/' {
        path + file_name
    } else {
        path + seq!['/'] + file_name
    }
}

/// Join a directory path and a file name with a single separator.
pub fn join_full_path(aws_config_path: String, file_name: &str) -> (r: String)
    ensures
        r@ == spec_join_full_path(aws_config_path@, file_name@),
{
    let ghost p0 = aws_config_path@;
    let n = aws_config_path.as_str().unicode_len();
    if n == 0 {
        return file_name.to_owned();
    }
    let last = aws_config_path.as_str().get_char(n - 1);
    let mut r = aws_config_path;
    if last != '/' {
        r.append("/");
        proof {
            reveal_strlit("/");
            assert("/"@ =~= seq!['/']);
            assert(r@ =~= p0 + seq!['/']);
        }
    }
    r.append(file_name);
    proof {
        if last == '/' {
            assert(r@ =~= p0 + file_name@);
        } else {
            assert(r@ =~= (p0 + seq!['/']) + file_name@);
            assert(r@ =~= p0 + seq!['/'] + file_name@);
        }
    }
    r
}

} // verus!
