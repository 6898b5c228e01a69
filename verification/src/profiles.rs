//! The line-oriented config file that names profiles: `[default]` and
//! `[profile <name>]` sections, with an `sso_start_url` key inside a section
//! marking the profile as SSO-backed. Reading the file and the environment
//! happens outside; the contents and the environment's profile choice are
//! handed in as plain text.

use vstd::prelude::*;

use crate::text::{
    chars_eq, chars_lt, chars_to_string, has_prefix, lemma_text_lt_irrefl, lemma_text_lt_total,
    lemma_text_lt_trans, str_to_chars, strip_prefix_chars, subrange_chars, text_lt, trim_chars,
    trim_start_chars, trim_start_text, trim_text, CharClass,
};

verus! {

/// How far the first line of `s` reaches: the index of the first newline, or
/// the whole length when there is none.
pub open spec fn line_len(s: Seq<char>) -> nat
    decreases s.len(),
{
    if s.len() == 0 {
        0
    } else if s[0] == '\n' {
        0
    } else {
        (1 + line_len(s.drop_first())) as nat
    }
}

/// The index `m` right after a newline-free prefix is the first line's length.
pub proof fn lemma_line_len_is(t: Seq<char>, m: int)
    requires
        0 <= m <= t.len(),
        forall|j: int| 0 <= j < m ==> t[j] != '\n',
        m < t.len() ==> t[m] == '\n',
    ensures
        line_len(t) == m,
    decreases m,
{
    if m == 0 {
    } else {
        assert(t[0] != '\n');
        assert forall|j: int| 0 <= j < m - 1 implies t.drop_first()[j] != '\n' by {
            assert(t.drop_first()[j] == t[j + 1]);
        }
        if m - 1 < t.drop_first().len() {
            assert(t.drop_first()[m - 1] == t[m]);
        }
        lemma_line_len_is(t.drop_first(), m - 1);
    }
}

/// The text split at newlines. A terminal line without a newline is kept; a
/// trailing newline yields no empty final line.
pub open spec fn split_lines(s: Seq<char>) -> Seq<Seq<char>>
    decreases s.len(),
{
    if s.len() == 0 {
        Seq::empty()
    } else {
        let l = line_len(s) as int;
        if l >= s.len() {
            seq![s]
        } else {
            seq![s.subrange(0, l)] + split_lines(s.skip(l + 1))
        }
    }
}

/// The lines of the text, one vector of characters each.
pub fn split_lines_exec(s: &Vec<char>) -> (r: Vec<Vec<char>>)
    ensures
        r@.len() == split_lines(s@).len(),
        forall|i: int| 0 <= i < r@.len() ==> #[trigger] r@[i]@ == split_lines(s@)[i],
{
    let n = s.len();
    let mut out: Vec<Vec<char>> = Vec::new();
    let ghost mut processed: Seq<Seq<char>> = Seq::empty();
    let mut pos: usize = 0;
    proof {
        assert(s@.skip(0) =~= s@);
        assert(processed + split_lines(s@) =~= split_lines(s@));
    }
    while pos < n
        invariant
            n == s@.len(),
            pos <= n,
            out@.len() == processed.len(),
            forall|i: int| 0 <= i < out@.len() ==> #[trigger] out@[i]@ == processed[i],
            split_lines(s@) == processed + split_lines(s@.skip(pos as int)),
        decreases n - pos,
    {
        let mut e: usize = pos;
        while e < n && s[e] != '\n'
            invariant
                n == s@.len(),
                pos <= e <= n,
                forall|j: int| pos <= j < e ==> s@[j] != '\n',
            decreases n - e,
        {
            e = e + 1;
        }
        let line = subrange_chars(s, pos, e);
        let ghost tail = s@.skip(pos as int);
        proof {
            assert forall|j: int| 0 <= j < e - pos implies tail[j] != '\n' by {
                assert(tail[j] == s@[pos + j]);
            }
            if e < n {
                assert(tail[e - pos] == s@[e as int]);
            }
            lemma_line_len_is(tail, e - pos);
            assert(line@ =~= tail.subrange(0, e - pos));
        }
        let ghost out0 = processed;
        out.push(line);
        proof {
            processed = processed.push(line@);
        }
        if e < n {
            proof {
                assert(tail.skip(e - pos + 1) =~= s@.skip(e + 1));
                assert(split_lines(tail) == seq![tail.subrange(0, e - pos)] + split_lines(
                    tail.skip(e - pos + 1),
                ));
                assert(out0.push(line@) + split_lines(s@.skip(e + 1)) =~= out0 + (seq![line@]
                    + split_lines(s@.skip(e + 1))));
            }
            pos = e + 1;
        } else {
            proof {
                assert(line@ =~= tail);
                assert(split_lines(tail) == seq![tail]);
                assert(s@.skip(n as int) =~= Seq::<char>::empty());
                assert(split_lines(Seq::<char>::empty()) =~= Seq::<Seq<char>>::empty());
                assert(out0.push(line@) + Seq::<Seq<char>>::empty() =~= out0 + seq![tail]);
            }
            pos = n;
        }
    }
    proof {
        assert(s@.skip(n as int) =~= Seq::<char>::empty());
        assert(processed + Seq::<Seq<char>>::empty() =~= processed);
    }
    out
}

/// The section name a line opens, if the line (after trimming) reads
/// `[<name>]`.
pub open spec fn section_of(line: Seq<char>) -> Option<Seq<char>> {
    let t = trim_text(line, CharClass::Space);
    if t.len() >= 2 && t[0] == '[' && t[t.len() - 1] == ']' {
        Some(t.subrange(1, t.len() - 1))
    } else {
        None
    }
}

/// The profile a section header names: `default` itself, or the text after
/// the `profile ` marker.
pub open spec fn profile_of_section(sec: Seq<char>) -> Option<Seq<char>> {
    if sec == "default"@ {
        Some("default"@)
    } else if has_prefix(sec, "profile "@) {
        Some(sec.skip("profile "@.len() as int))
    } else {
        None
    }
}

/// The profile a whole line names, if it is a section header naming one.
pub open spec fn line_profile(line: Seq<char>) -> Option<Seq<char>> {
    match section_of(line) {
        Some(sec) => profile_of_section(sec),
        None => None,
    }
}

/// Some line among the first `n` declares the profile name `nm`.
pub open spec fn declared_in_prefix(lines: Seq<Seq<char>>, n: int, nm: Seq<char>) -> bool {
    exists|j: int| 0 <= j < n && line_profile(lines[j]) == Some(nm)
}

/// Some line of the config text declares the profile name `nm`.
pub open spec fn declares_profile(s: Seq<char>, nm: Seq<char>) -> bool {
    declared_in_prefix(split_lines(s), split_lines(s).len() as int, nm)
}

/// The listed names hold `nm`.
pub open spec fn vec_has_name(v: Seq<String>, nm: Seq<char>) -> bool {
    exists|t: int| 0 <= t < v.len() && v[t]@ == nm
}

fn string_lt(a: &String, b: &String) -> (r: bool)
    ensures
        r == text_lt(a@, b@),
{
    let ca = str_to_chars(a.as_str());
    let cb = str_to_chars(b.as_str());
    chars_lt(&ca, &cb)
}

/// The first position in the ascending list at or after which `s` belongs:
/// everything before it is strictly below `s`.
fn lower_bound(out: &Vec<String>, s: &String) -> (j: usize)
    ensures
        j <= out@.len(),
        forall|t: int| 0 <= t < j ==> text_lt(out@[t]@, s@),
        j < out@.len() ==> !text_lt(out@[j as int]@, s@),
{
    let olen = out.len();
    let mut j: usize = 0;
    while j < olen
        invariant
            olen == out@.len(),
            j <= olen,
            forall|t: int| 0 <= t < j ==> text_lt(out@[t]@, s@),
        decreases olen - j,
    {
        if !string_lt(&out[j], s) {
            return j;
        }
        j = j + 1;
    }
    j
}

/// The section name of a line, computed; `None` when the line is no header.
fn section_of_exec(line: &Vec<char>) -> (r: Option<Vec<char>>)
    ensures
        r is Some <==> section_of(line@) is Some,
        r is Some ==> r->0@ == section_of(line@)->0,
{
    let t = trim_chars(line, CharClass::Space);
    if t.len() >= 2 {
        let open_ok = t[0] == '[';
        let close_ok = t[t.len() - 1] == ']';
        if open_ok && close_ok {
            return Some(subrange_chars(&t, 1, t.len() - 1));
        }
    }
    None
}

/// The profile a section header names, computed.
fn profile_of_section_exec(sec: &Vec<char>) -> (r: Option<Vec<char>>)
    ensures
        r is Some <==> profile_of_section(sec@) is Some,
        r is Some ==> r->0@ == profile_of_section(sec@)->0,
{
    let dflt = str_to_chars("default");
    if chars_eq(sec, &dflt) {
        return Some(dflt);
    }
    let pref = str_to_chars("profile ");
    strip_prefix_chars(sec, &pref)
}

/// All profile names the config text declares, `default` always among them,
/// each exactly once, sorted ascending by character code point — the same
/// order as Rust's byte-wise comparison of strings.
pub fn list_aws_profiles(contents: &str) -> (r: Vec<String>)
    ensures
        r@.len() >= 1,
        vec_has_name(r@, "default"@),
        forall|nm: Seq<char>|
            #![trigger vec_has_name(r@, nm)]
            #![trigger declares_profile(contents@, nm)]
            vec_has_name(r@, nm) <==> (nm == "default"@ || declares_profile(contents@, nm)),
        forall|p: int, q: int| 0 <= p < q < r@.len() ==> text_lt(r@[p]@, r@[q]@),
        forall|p: int, q: int| 0 <= p < q < r@.len() ==> r@[p]@ != r@[q]@,
{
    let cs = str_to_chars(contents);
    let lines = split_lines_exec(&cs);
    let ghost slines = split_lines(contents@);
    let mut out: Vec<String> = Vec::new();
    out.push("default".to_owned());
    let nlines = lines.len();
    proof {
        assert(out@[0]@ == "default"@);
        assert forall|nm: Seq<char>|
            #![trigger vec_has_name(out@, nm)]
            #![trigger declared_in_prefix(slines, 0, nm)]
            vec_has_name(out@, nm) <==> (nm == "default"@ || declared_in_prefix(
                slines,
                0,
                nm,
            )) by {
            if vec_has_name(out@, nm) {
                let t = choose|t: int| 0 <= t < out@.len() && out@[t]@ == nm;
                assert(t == 0);
            }
            if nm == "default"@ {
                assert(out@[0]@ == nm);
                assert(vec_has_name(out@, nm));
            }
        }
    }
    for i in 0..nlines
        invariant
            nlines == lines@.len(),
            slines == split_lines(contents@),
            lines@.len() == slines.len(),
            forall|t: int| 0 <= t < lines@.len() ==> #[trigger] lines@[t]@ == slines[t],
            out@.len() >= 1,
            vec_has_name(out@, "default"@),
            forall|p: int, q: int| 0 <= p < q < out@.len() ==> text_lt(out@[p]@, out@[q]@),
            forall|nm: Seq<char>|
                #![trigger vec_has_name(out@, nm)]
                #![trigger declared_in_prefix(slines, i as int, nm)]
                vec_has_name(out@, nm) <==> (nm == "default"@ || declared_in_prefix(
                    slines,
                    i as int,
                    nm,
                )),
    {
        let line = &lines[i];
        let mut name_opt: Option<Vec<char>> = None;
        match section_of_exec(line) {
            Some(sec) => {
                match profile_of_section_exec(&sec) {
                    Some(nm) => {
                        name_opt = Some(nm);
                    },
                    None => {},
                }
            },
            None => {},
        }
        match name_opt {
            Some(nm) => {
                proof {
                    assert(line_profile(slines[i as int]) == Some(nm@));
                }
                let s = chars_to_string(&nm);
                let j = lower_bound(&out, &s);
                let present = j < out.len() && out[j].eq(&s);
                proof {
                    if present {
                        assert(out@[j as int]@ == nm@);
                        assert(vec_has_name(out@, nm@));
                    } else {
                        assert forall|t: int| 0 <= t < out@.len() implies out@[t]@ != nm@ by {
                            if t < j {
                                if out@[t]@ == nm@ {
                                    lemma_text_lt_irrefl(nm@);
                                }
                            } else if t > j {
                                lemma_text_lt_total(out@[j as int]@, nm@);
                                assert(text_lt(nm@, out@[j as int]@));
                                lemma_text_lt_trans(nm@, out@[j as int]@, out@[t]@);
                                if out@[t]@ == nm@ {
                                    lemma_text_lt_irrefl(nm@);
                                }
                            }
                        }
                        assert(!vec_has_name(out@, nm@));
                    }
                }
                if !present {
                    let ghost out0 = out@;
                    let ghost s0 = s;
                    proof {
                        assert(!declared_in_prefix(slines, i as int, nm@));
                        // the scan stopped at the insertion point: everything
                        // before it lies strictly below the new name and
                        // everything from it on strictly above
                        assert forall|t: int|
                            j <= t < out0.len() implies text_lt(nm@, out0[t]@) by {
                            lemma_text_lt_total(out0[j as int]@, nm@);
                            assert(text_lt(nm@, out0[j as int]@));
                            if t > j {
                                lemma_text_lt_trans(nm@, out0[j as int]@, out0[t]@);
                            }
                        }
                    }
                    out.insert(j, s);
                    proof {
                        out0.insert_ensures(j as int, s0);
                        assert(out@ == out0.insert(j as int, s0));
                        assert(out@.len() == out0.len() + 1);
                        assert(out@[j as int]@ == nm@);
                        assert forall|p: int, q: int|
                            0 <= p < q < out@.len() implies text_lt(out@[p]@, out@[q]@) by {
                            if q < j {
                                assert(out@[p] == out0[p]);
                                assert(out@[q] == out0[q]);
                            } else if q == j {
                                assert(out@[p] == out0[p]);
                                assert(text_lt(out0[p]@, nm@));
                            } else {
                                assert(out@[(q - 1) + 1] == out0[q - 1]);
                                assert(text_lt(nm@, out0[q - 1]@));
                                if p < j {
                                    assert(out@[p] == out0[p]);
                                    if p < q - 1 {
                                        assert(text_lt(out0[p]@, out0[q - 1]@));
                                    }
                                } else if p > j {
                                    assert(out@[(p - 1) + 1] == out0[p - 1]);
                                    assert(text_lt(out0[p - 1]@, out0[q - 1]@));
                                }
                            }
                        }
                        assert forall|nm2: Seq<char>|
                            #![trigger vec_has_name(out@, nm2)]
                            #![trigger declared_in_prefix(slines, i + 1, nm2)]
                            vec_has_name(out@, nm2) <==> (nm2 == "default"@ || declared_in_prefix(
                                slines,
                                i + 1,
                                nm2,
                            )) by {
                            if vec_has_name(out@, nm2) {
                                let t = choose|t: int| 0 <= t < out@.len() && out@[t]@ == nm2;
                                if t < j {
                                    assert(out0[t]@ == nm2);
                                    assert(vec_has_name(out0, nm2));
                                } else if t == j {
                                    assert(nm2 == nm@);
                                    assert(line_profile(slines[i as int]) == Some(nm2));
                                    assert(declared_in_prefix(slines, i + 1, nm2));
                                } else {
                                    assert(out@[(t - 1) + 1] == out0[t - 1]);
                                    assert(out0[t - 1]@ == nm2);
                                    assert(vec_has_name(out0, nm2));
                                }
                                if vec_has_name(out0, nm2) && nm2 != "default"@ {
                                    assert(declared_in_prefix(slines, i as int, nm2));
                                    let jj = choose|jj: int|
                                        0 <= jj < i && line_profile(slines[jj]) == Some(nm2);
                                    assert(declared_in_prefix(slines, i + 1, nm2));
                                }
                            }
                            if nm2 == "default"@ {
                                assert(vec_has_name(out0, nm2));
                                let t = choose|t: int| 0 <= t < out0.len() && out0[t]@ == nm2;
                                if t < j {
                                    assert(out@[t]@ == nm2);
                                } else {
                                    assert(out@[t + 1] == out0[t]);
                                    assert(out@[t + 1]@ == nm2);
                                }
                                assert(vec_has_name(out@, nm2));
                            } else if declared_in_prefix(slines, i + 1, nm2) {
                                let jj = choose|jj: int|
                                    0 <= jj < i + 1 && line_profile(slines[jj]) == Some(nm2);
                                if jj < i {
                                    assert(declared_in_prefix(slines, i as int, nm2));
                                    assert(vec_has_name(out0, nm2));
                                    let t = choose|t: int|
                                        0 <= t < out0.len() && out0[t]@ == nm2;
                                    if t < j {
                                        assert(out@[t]@ == nm2);
                                    } else {
                                        assert(out@[t + 1] == out0[t]);
                                        assert(out@[t + 1]@ == nm2);
                                    }
                                    assert(vec_has_name(out@, nm2));
                                } else {
                                    assert(nm2 == nm@);
                                    assert(out@[j as int]@ == nm2);
                                    assert(vec_has_name(out@, nm2));
                                }
                            }
                        }
                    }
                } else {
                    proof {
                        assert forall|nm2: Seq<char>|
                            #![trigger vec_has_name(out@, nm2)]
                            #![trigger declared_in_prefix(slines, i + 1, nm2)]
                            vec_has_name(out@, nm2) <==> (nm2 == "default"@ || declared_in_prefix(
                                slines,
                                i + 1,
                                nm2,
                            )) by {
                            if declared_in_prefix(slines, i + 1, nm2) {
                                let j = choose|j: int|
                                    0 <= j < i + 1 && line_profile(slines[j]) == Some(nm2);
                                if j == i {
                                    assert(nm2 == nm@);
                                    assert(vec_has_name(out@, nm2));
                                } else {
                                    assert(declared_in_prefix(slines, i as int, nm2));
                                }
                            }
                            if vec_has_name(out@, nm2) && nm2 != "default"@ {
                                assert(declared_in_prefix(slines, i as int, nm2));
                                let j = choose|j: int|
                                    0 <= j < i && line_profile(slines[j]) == Some(nm2);
                                assert(declared_in_prefix(slines, i + 1, nm2));
                            }
                        }
                    }
                }
            },
            None => {
                proof {
                    assert(line_profile(slines[i as int]) is None);
                    assert forall|nm2: Seq<char>|
                        #![trigger vec_has_name(out@, nm2)]
                        #![trigger declared_in_prefix(slines, i + 1, nm2)]
                        vec_has_name(out@, nm2) <==> (nm2 == "default"@ || declared_in_prefix(
                            slines,
                            i + 1,
                            nm2,
                        )) by {
                        if declared_in_prefix(slines, i + 1, nm2) {
                            let j = choose|j: int|
                                0 <= j < i + 1 && line_profile(slines[j]) == Some(nm2);
                            assert(j < i);
                            assert(declared_in_prefix(slines, i as int, nm2));
                        }
                        if vec_has_name(out@, nm2) && nm2 != "default"@ {
                            assert(declared_in_prefix(slines, i as int, nm2));
                            let j = choose|j: int|
                                0 <= j < i && line_profile(slines[j]) == Some(nm2);
                            assert(declared_in_prefix(slines, i + 1, nm2));
                        }
                    }
                }
            },
        }
    }
    proof {
        assert forall|nm: Seq<char>|
            #![trigger vec_has_name(out@, nm)]
            #![trigger declares_profile(contents@, nm)]
            vec_has_name(out@, nm) <==> (nm == "default"@ || declares_profile(
                contents@,
                nm,
            )) by {
            assert(declares_profile(contents@, nm) == declared_in_prefix(
                slines,
                nlines as int,
                nm,
            ));
        }
        // strict order means no two listed names coincide
        assert forall|p: int, q: int| 0 <= p < q < out@.len() implies out@[p]@ != out@[q]@ by {
            if out@[p]@ == out@[q]@ {
                lemma_text_lt_irrefl(out@[p]@);
            }
        }
    }
    out
}

/// The `sso_start_url` value a (trimmed) line assigns: the text after the key,
/// with the separator trimmed away, when that text is non-empty.
pub open spec fn sso_url_value(t: Seq<char>) -> Option<Seq<char>> {
    if has_prefix(t, "sso_start_url"@) {
        let v = trim_start_text(t.skip("sso_start_url"@.len() as int), CharClass::KeyDelim);
        if v.len() > 0 {
            Some(v)
        } else {
            None
        }
    } else {
        None
    }
}

/// The section header opens the target profile's section: `[default]` for the
/// default profile, `[profile <target>]` for a named one.
pub open spec fn section_is_target(sec: Seq<char>, target: Seq<char>) -> bool {
    if target == "default"@ {
        sec == "default"@
    } else {
        has_prefix(sec, "profile "@) && sec.skip("profile "@.len() as int) == target
    }
}

/// Scanning the lines in order while tracking whether the scan is inside the
/// target profile's section: a section header switches the flag; inside the
/// section, the first line assigning a non-empty `sso_start_url` value wins.
pub open spec fn sso_scan(lines: Seq<Seq<char>>, target: Seq<char>, in_sec: bool) -> Option<
    Seq<char>,
>
    decreases lines.len(),
{
    if lines.len() == 0 {
        None
    } else {
        match section_of(lines[0]) {
            Some(sec) => sso_scan(lines.drop_first(), target, section_is_target(sec, target)),
            None => {
                if in_sec && sso_url_value(trim_text(lines[0], CharClass::Space)) is Some {
                    sso_url_value(trim_text(lines[0], CharClass::Space))
                } else {
                    sso_scan(lines.drop_first(), target, in_sec)
                }
            },
        }
    }
}

/// The profile name the scan looks for: the explicit argument, else the
/// environment's choice, else `default`.
pub open spec fn effective_profile(profile: Option<&str>, env_profile: Option<&str>) -> Seq<char> {
    match profile {
        Some(p) => p@,
        None => match env_profile {
            Some(e) => e@,
            None => "default"@,
        },
    }
}

fn section_is_target_exec(sec: &Vec<char>, target: &Vec<char>) -> (r: bool)
    ensures
        r == section_is_target(sec@, target@),
{
    let dflt = str_to_chars("default");
    if chars_eq(target, &dflt) {
        chars_eq(sec, &dflt)
    } else {
        let pref = str_to_chars("profile ");
        match strip_prefix_chars(sec, &pref) {
            Some(rest) => chars_eq(&rest, target),
            None => false,
        }
    }
}

/// The SSO start URL the config text assigns to the profile, when it assigns
/// one. `contents` is the config file's text; `env_profile` is the
/// environment's profile choice, consulted only without an explicit profile.
pub fn get_sso_start_url(contents: &str, profile: Option<&str>, env_profile: Option<&str>) -> (r:
    Option<String>)
    ensures
        r is Some <==> sso_scan(
            split_lines(contents@),
            effective_profile(profile, env_profile),
            false,
        ) is Some,
        r is Some ==> r->0@ == sso_scan(
            split_lines(contents@),
            effective_profile(profile, env_profile),
            false,
        )->0,
{
    let target: Vec<char> = match profile {
        Some(p) => str_to_chars(p),
        None => match env_profile {
            Some(e) => str_to_chars(e),
            None => str_to_chars("default"),
        },
    };
    let cs = str_to_chars(contents);
    let lines = split_lines_exec(&cs);
    let ghost slines = split_lines(contents@);
    let mut in_sec = false;
    let nlines = lines.len();
    proof {
        assert(slines.skip(0) =~= slines);
    }
    for i in 0..nlines
        invariant
            target@ == effective_profile(profile, env_profile),
            nlines == lines@.len(),
            slines == split_lines(contents@),
            lines@.len() == slines.len(),
            forall|t: int| 0 <= t < lines@.len() ==> #[trigger] lines@[t]@ == slines[t],
            sso_scan(slines, target@, false) == sso_scan(
                slines.skip(i as int),
                target@,
                in_sec,
            ),
    {
        let line = &lines[i];
        proof {
            assert(slines.skip(i as int)[0] == slines[i as int]);
            assert(slines.skip(i as int).drop_first() =~= slines.skip(i + 1));
        }
        match section_of_exec(line) {
            Some(sec) => {
                in_sec = section_is_target_exec(&sec, &target);
            },
            None => {
                if in_sec {
                    let t = trim_chars(line, CharClass::Space);
                    let pref = str_to_chars("sso_start_url");
                    match strip_prefix_chars(&t, &pref) {
                        Some(rest) => {
                            let v = trim_start_chars(&rest, CharClass::KeyDelim);
                            if v.len() > 0 {
                                proof {
                                    assert(sso_url_value(
                                        trim_text(slines[i as int], CharClass::Space),
                                    ) == Some(v@));
                                }
                                return Some(chars_to_string(&v));
                            }
                        },
                        None => {},
                    }
                }
            },
        }
    }
    proof {
        assert(slines.skip(nlines as int) =~= Seq::<Seq<char>>::empty());
    }
    None
}

/// Whether the profile is SSO-backed: the config text assigns it an SSO start
/// URL. A credential failure on such a profile auto-triggers the interactive
/// re-authentication flow.
pub fn profile_uses_sso(contents: &str, profile: Option<&str>, env_profile: Option<&str>) -> (r:
    bool)
    ensures
        r == (sso_scan(
            split_lines(contents@),
            effective_profile(profile, env_profile),
            false,
        ) is Some),
{
    let url = get_sso_start_url(contents, profile, env_profile);
    url.is_some()
}

} // verus!
