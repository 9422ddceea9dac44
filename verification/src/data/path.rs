//! Data URIs (`data://.my/dir/file`) and the API paths they map to (`data/.my/dir/file`).

use vstd::prelude::*;
use vstd::string::*;
use crate::text;
use crate::text::{
    chars_of, contains, find_from, join_strs, split_str, split_terminator_str, starts_with, substring,
};

verus! {

/// The separator between a data URI's protocol and its path.
pub open spec fn scheme_sep() -> Seq<char> {
    seq![':', '/', '/']
}

/// The path separator.
pub open spec fn slash() -> Seq<char> {
    seq!['/']
}

/// The protocol assumed when a data URI names none.
pub open spec fn default_protocol() -> Seq<char> {
    seq!['d', 'a', 't', 'a', '/']
}

/// The API path of a data URI: the protocol separator `://` becomes `/`
/// (a trailing one is dropped); without a protocol, `data/` is prefixed
/// (after dropping one leading `/`).
pub open spec fn data_uri_to_path(uri: Seq<char>) -> Seq<char> {
    if text::contains_seq(uri, scheme_sep()) {
        text::join_seq(text::split_terminator_seq(uri, scheme_sep()), slash())
    } else if text::starts_with_seq(uri, slash()) {
        default_protocol() + uri.subrange(1, uri.len() as int)
    } else {
        default_protocol() + uri
    }
}

/// The data URI of an API path: its first `/` becomes `://`
/// (a path without `/` is a bare protocol).
pub open spec fn path_to_data_uri(path: Seq<char>) -> Seq<char> {
    let i = text::first_match(path, slash());
    if i < 0 {
        path + scheme_sep()
    } else {
        path.subrange(0, i) + scheme_sep() + path.subrange(i + 1, path.len() as int)
    }
}

/// The data URI of the parent of an API path; none for a bare protocol.
pub open spec fn parent_data_uri(path: Seq<char>) -> Option<Seq<char>> {
    let parts = text::split_terminator_seq(path, slash());
    if parts.len() <= 1 {
        None
    } else if parts.len() == 2 {
        Some(parts[0] + scheme_sep())
    } else {
        Some(parts[0] + scheme_sep() + text::join_seq(parts.subrange(1, parts.len() - 1), slash()))
    }
}

/// `s` without the `/`s it ends with.
pub open spec fn trim_trailing_slashes(s: Seq<char>) -> Seq<char>
    decreases s.len(),
{
    if s.len() > 0 && s.last() == '/' {
        trim_trailing_slashes(s.drop_last())
    } else {
        s
    }
}

/// The last component of an API path, as unix `basename` gives it: the `/`s
/// it ends with are dropped first, and a path of `/`s only is `/`.
pub open spec fn path_basename(path: Seq<char>) -> Seq<char> {
    let t = trim_trailing_slashes(path);
    if t.len() == 0 && path.len() > 0 {
        slash()
    } else {
        text::split_seq(t, slash()).last()
    }
}

/// The data URI of the child `name` of the directory at API path `path`.
pub open spec fn child_data_uri(path: Seq<char>, name: Seq<char>) -> Seq<char> {
    let uri = path_to_data_uri(path);
    if text::ends_with_seq(uri, slash()) {
        uri + name
    } else {
        uri + slash() + name
    }
}

/// The API path of a data URI (`data://foo` is `data/foo`, `/foo` and `foo` are `data/foo`).
pub fn parse_data_uri(data_uri: &str) -> (r: String)
    ensures
        r@ == data_uri_to_path(data_uri@),
{
    proof {
        reveal_strlit("://");
        reveal_strlit("/");
        reveal_strlit("data/");
        assert("://"@ =~= scheme_sep());
        assert("/"@ =~= slash());
        assert("data/"@ =~= default_protocol());
    }
    if contains(data_uri, "://") {
        let parts = split_terminator_str(data_uri, "://");
        join_strs(&parts, "/")
    } else if starts_with(data_uri, "/") {
        let n = data_uri.unicode_len();
        let rest = substring(data_uri, 1, n);
        let mut r = String::from_str("data/");
        r.append(rest.as_str());
        r
    } else {
        let mut r = String::from_str("data/");
        r.append(data_uri);
        r
    }
}

/// The data URI of an API path (`data/foo` is `data://foo`).
pub fn to_data_uri(path: &str) -> (r: String)
    ensures
        r@ == path_to_data_uri(path@),
{
    proof {
        reveal_strlit("://");
        reveal_strlit("/");
        assert("://"@ =~= scheme_sep());
        assert("/"@ =~= slash());
    }
    let chars = chars_of(path);
    let slash_chars = chars_of("/");
    assert(chars@.subrange(0, chars@.len() as int) =~= chars@);
    match find_from(&chars, &slash_chars, 0) {
        None => {
            let mut r = String::from_str(path);
            r.append("://");
            r
        },
        Some(i) => {
            proof {
                text::lemma_first_match_from(path@, slash(), 0);
            }
            let n = chars.len();
            let mut r = substring(path, 0, i);
            r.append("://");
            let rest = substring(path, i + 1, n);
            r.append(rest.as_str());
            r
        },
    }
}

/// The data URI of the parent of the directory or file at an API path.
pub fn parent_uri(path: &str) -> (r: Option<String>)
    ensures
        match r {
            None => parent_data_uri(path@) is None,
            Some(u) => parent_data_uri(path@) == Some(u@),
        },
{
    proof {
        reveal_strlit("://");
        reveal_strlit("/");
        assert("://"@ =~= scheme_sep());
        assert("/"@ =~= slash());
    }
    let parts = split_terminator_str(path, "/");
    let n = parts.len();
    if n <= 1 {
        None
    } else if n == 2 {
        let mut r = parts[0].clone();
        r.append("://");
        Some(r)
    } else {
        let mut middle: Vec<String> = Vec::new();
        let mut i: usize = 1;
        while i < n - 1
            invariant
                n == parts@.len(),
                n > 2,
                1 <= i <= n - 1,
                text::views(middle@) == text::views(parts@).subrange(1, i as int),
            decreases n - 1 - i,
        {
            let ghost before = text::views(middle@);
            middle.push(parts[i].clone());
            assert(text::views(middle@) =~= before.push(parts@[i as int]@));
            assert(text::views(parts@).subrange(1, i + 1) =~= text::views(parts@).subrange(1, i as int).push(
                parts@[i as int]@,
            ));
            i = i + 1;
        }
        let mut r = parts[0].clone();
        r.append("://");
        let joined = join_strs(&middle, "/");
        r.append(joined.as_str());
        Some(r)
    }
}

/// The last component of an API path (unix `basename`).
pub fn basename_of(path: &str) -> (r: String)
    ensures
        r@ == path_basename(path@),
{
    proof {
        reveal_strlit("/");
        assert("/"@ =~= slash());
    }
    let n = path.unicode_len();
    let mut i: usize = n;
    assert(path@.subrange(0, n as int) =~= path@);
    while i > 0 && path.get_char(i - 1) == '/'
        invariant
            n == path@.len(),
            i <= n,
            trim_trailing_slashes(path@) == trim_trailing_slashes(path@.subrange(0, i as int)),
        decreases i,
    {
        assert(path@.subrange(0, i as int).drop_last() =~= path@.subrange(0, i - 1));
        i = i - 1;
    }
    let trimmed = substring(path, 0, i);
    assert(trim_trailing_slashes(path@) == trimmed@);
    if i == 0 && n > 0 {
        return String::from_str("/");
    }
    proof {
        text::lemma_split_nonempty(trimmed@, slash());
    }
    let parts = split_str(trimmed.as_str(), "/");
    let k = parts.len();
    let last = parts[k - 1].clone();
    assert(text::views(parts@)[k - 1] == parts@[k - 1]@);
    last
}


/// Without `/` there is no `://`.
pub proof fn lemma_no_slash_no_scheme(s: Seq<char>)
    requires
        !text::contains_seq(s, slash()),
    ensures
        !text::contains_seq(s, scheme_sep()),
{
    if text::contains_seq(s, scheme_sep()) {
        let j = choose|j: int| text::match_at(s, scheme_sep(), j);
        assert(s.subrange(j, j + 3)[1] == '/');
        text::lemma_match_char(s, '/', j + 1);
    }
}

/// In `h://t` with `h` free of `/`, the first `://` follows `h`.
pub proof fn lemma_scheme_first(h: Seq<char>, t: Seq<char>)
    requires
        !text::contains_seq(h, slash()),
    ensures
        text::first_match(h + scheme_sep() + t, scheme_sep()) == h.len(),
        text::contains_seq(h + scheme_sep() + t, scheme_sep()),
{
    let u = h + scheme_sep() + t;
    assert(u.subrange(h.len() as int, h.len() + 3int) =~= scheme_sep());
    assert forall|j: int| 0 <= j < h.len() implies !text::match_at(u, scheme_sep(), j) by {
        if text::match_at(u, scheme_sep(), j) {
            assert(u.subrange(j, j + 3)[1] == '/');
            if j + 1 < h.len() {
                assert(u[j + 1] == h[j + 1]);
                text::lemma_match_char(h, '/', j + 1);
            } else {
                assert(u[j + 1] == ':');
            }
        }
    }
    text::lemma_first_match_is(u, scheme_sep(), h.len() as int);
}

/// In `h/t` with `h` free of `/`, the first `/` follows `h`.
pub proof fn lemma_slash_first(h: Seq<char>, t: Seq<char>)
    requires
        !text::contains_seq(h, slash()),
    ensures
        text::first_match(h + slash() + t, slash()) == h.len(),
{
    let u = h + slash() + t;
    text::lemma_match_char(u, '/', h.len() as int);
    assert forall|j: int| 0 <= j < h.len() implies !text::match_at(u, slash(), j) by {
        text::lemma_match_char(u, '/', j);
        text::lemma_match_char(h, '/', j);
    }
    text::lemma_first_match_is(u, slash(), h.len() as int);
}

/// The API path of the data URI `h://t`.
pub proof fn lemma_path_of_scheme_uri(h: Seq<char>, t: Seq<char>)
    requires
        !text::contains_seq(h, slash()),
        !text::contains_seq(t, scheme_sep()),
    ensures
        data_uri_to_path(h + scheme_sep() + t) == (if t.len() == 0 {
            h
        } else {
            h + slash() + t
        }),
{
    let u = h + scheme_sep() + t;
    lemma_scheme_first(h, t);
    assert(u.subrange(0, h.len() as int) =~= h);
    assert(u.subrange(h.len() + 3int, u.len() as int) =~= t);
    text::lemma_split_no_contains(t, scheme_sep());
    assert(text::split_seq(u, scheme_sep()) =~= seq![h, t]);
    if t.len() == 0 {
        assert(text::split_terminator_seq(u, scheme_sep()) =~= seq![h]);
        assert(text::join_seq(seq![h], slash()) == h);
    } else {
        assert(text::split_terminator_seq(u, scheme_sep()) =~= seq![h, t]);
        assert(seq![h, t].drop_last() =~= seq![h]);
        assert(text::join_seq(seq![h], slash()) == h);
        assert(text::join_seq(seq![h, t], slash()) == text::join_seq(seq![h], slash()) + slash()
            + t);
    }
}

/// An API path split at its first `/`: the protocol and the rest.
pub proof fn lemma_path_halves(path: Seq<char>)
    ensures
        ({
            let i = text::first_match(path, slash());
            &&& i >= 0 ==> 0 <= i < path.len() && path == path.subrange(0, i) + slash()
                + path.subrange(i + 1, path.len() as int)
            &&& !text::contains_seq(if i < 0 { path } else { path.subrange(0, i) }, slash())
        }),
{
    text::lemma_first_match_from(path, slash(), 0);
    let i = text::first_match(path, slash());
    if i >= 0 {
        text::lemma_match_char(path, '/', i);
        assert(path =~= path.subrange(0, i) + slash() + path.subrange(i + 1, path.len() as int));
        let h = path.subrange(0, i);
        if text::contains_seq(h, slash()) {
            let j = choose|j: int| text::match_at(h, slash(), j);
            text::lemma_sub_match(path, slash(), 0, i, j);
        }
    }
}

/// `t/name` has no `://` when `t` has none, does not end with `/`, and `name` has no `/`.
pub proof fn lemma_no_scheme_in_child(t: Seq<char>, name: Seq<char>)
    requires
        !text::contains_seq(t, scheme_sep()),
        !text::ends_with_seq(t, slash()),
        !text::contains_seq(name, slash()),
    ensures
        !text::contains_seq(t + slash() + name, scheme_sep()),
{
    let x = t + slash() + name;
    if text::contains_seq(x, scheme_sep()) {
        let j = choose|j: int| text::match_at(x, scheme_sep(), j);
        assert(x.subrange(j, j + 3) == scheme_sep());
        assert(x.subrange(j, j + 3)[2] == '/');
        assert(x.subrange(j, j + 3)[1] == '/');
        if j + 3 <= t.len() {
            assert(t.subrange(j, j + 3) =~= x.subrange(j, j + 3));
            assert(text::match_at(t, scheme_sep(), j));
        } else if j + 2 == t.len() {
            assert(x[j + 1] == t[t.len() - 1]);
            assert(t.subrange(t.len() - 1, t.len() as int) =~= slash());
        } else {
            let k = j + 2 - t.len() - 1;
            assert(x[j + 2] == name[k]);
            text::lemma_match_char(name, '/', k);
        }
    }
}

/// A data URI round-trips through its API path:
/// a URI `proto://rest` whose protocol has no `/` and whose rest has no `://`
/// is the data URI of the path it names.
pub proof fn law_uri_path_roundtrip(proto: Seq<char>, rest: Seq<char>)
    requires
        !text::contains_seq(proto, slash()),
        !text::contains_seq(rest, scheme_sep()),
    ensures
        path_to_data_uri(data_uri_to_path(proto + scheme_sep() + rest)) == proto + scheme_sep()
            + rest,
{
    lemma_path_of_scheme_uri(proto, rest);
    if rest.len() == 0 {
        text::lemma_first_match_from(proto, slash(), 0);
        text::lemma_contains_first_match(proto, slash());
        assert(proto + scheme_sep() + rest =~= proto + scheme_sep());
    } else {
        lemma_slash_first(proto, rest);
        let p = proto + slash() + rest;
        assert(p.subrange(0, proto.len() as int) =~= proto);
        assert(p.subrange(proto.len() + 1int, p.len() as int) =~= rest);
    }
}

/// An API path round-trips through its data URI, unless it has `://` in it
/// or its only `/` ends it.
pub proof fn law_path_uri_roundtrip(path: Seq<char>)
    requires
        !text::contains_seq(path, scheme_sep()),
        text::first_match(path, slash()) >= 0 ==> text::first_match(path, slash()) + 1
            < path.len(),
    ensures
        data_uri_to_path(path_to_data_uri(path)) == path,
{
    lemma_path_halves(path);
    let i = text::first_match(path, slash());
    if i < 0 {
        lemma_path_of_scheme_uri(path, Seq::empty());
        assert(path + scheme_sep() + Seq::<char>::empty() =~= path + scheme_sep());
    } else {
        let h = path.subrange(0, i);
        let t = path.subrange(i + 1, path.len() as int);
        text::lemma_sub_no_contains(path, scheme_sep(), i + 1, path.len() as int);
        lemma_path_of_scheme_uri(h, t);
    }
}

/// The parent of the child `name` of a directory is that directory, for a
/// directory path without `://` that does not end with `/`, and a nonempty
/// name without `/`.
pub proof fn law_parent_of_child(path: Seq<char>, name: Seq<char>)
    requires
        !text::contains_seq(path, scheme_sep()),
        !text::ends_with_seq(path, slash()),
        name.len() > 0,
        !text::contains_seq(name, slash()),
    ensures
        parent_data_uri(data_uri_to_path(child_data_uri(path, name))) is Some,
        data_uri_to_path(parent_data_uri(data_uri_to_path(child_data_uri(path, name)))->0)
            == path,
{
    lemma_path_halves(path);
    lemma_no_slash_no_scheme(name);
    text::lemma_split_no_contains(name, slash());
    let i = text::first_match(path, slash());
    let c = path + slash() + name;
    if i < 0 {
        let uri = path + scheme_sep();
        assert(uri.subrange(uri.len() - 1, uri.len() as int) =~= slash());
        assert(child_data_uri(path, name) == uri + name);
        assert(uri + name =~= path + scheme_sep() + name);
        lemma_path_of_scheme_uri(path, name);
        text::lemma_split_char_concat(path, name, '/');
        text::lemma_split_no_contains(path, slash());
        assert(text::split_seq(c, slash()) =~= seq![path, name]);
        assert(text::split_terminator_seq(c, slash()) =~= seq![path, name]);
        lemma_path_of_scheme_uri(path, Seq::empty());
        assert(path + scheme_sep() + Seq::<char>::empty() =~= path + scheme_sep());
    } else {
        let h = path.subrange(0, i);
        let t = path.subrange(i + 1, path.len() as int);
        text::lemma_sub_no_contains(path, scheme_sep(), i + 1, path.len() as int);
        assert(t.len() > 0) by {
            if t.len() == 0 {
                assert(path.subrange(path.len() - 1, path.len() as int) =~= slash());
            }
        }
        assert(!text::ends_with_seq(t, slash())) by {
            assert(t.subrange(t.len() - 1, t.len() as int) =~= path.subrange(
                path.len() - 1,
                path.len() as int,
            ));
        }
        let uri = h + scheme_sep() + t;
        assert(path_to_data_uri(path) == uri);
        assert(!text::ends_with_seq(uri, slash())) by {
            assert(uri.subrange(uri.len() - 1, uri.len() as int) =~= t.subrange(
                t.len() - 1,
                t.len() as int,
            ));
        }
        assert(child_data_uri(path, name) =~= h + scheme_sep() + (t + slash() + name));
        lemma_no_scheme_in_child(t, name);
        lemma_path_of_scheme_uri(h, t + slash() + name);
        assert(h + slash() + (t + slash() + name) =~= c);
        text::lemma_split_char_concat(path, name, '/');
        assert(path == h + slash() + t);
        text::lemma_split_char_concat(h, t, '/');
        text::lemma_split_no_contains(h, slash());
        let st = text::split_seq(t, slash());
        text::lemma_split_nonempty(t, slash());
        let parts = seq![h] + st + seq![name];
        assert(text::split_seq(c, slash()) =~= parts);
        assert(text::split_terminator_seq(c, slash()) =~= parts);
        assert(parts.subrange(1, parts.len() - 1) =~= st);
        text::lemma_join_split(t, slash());
        lemma_path_of_scheme_uri(h, t);
    }
}

/// The API path of the child `name` of the directory at `path` is `path/name`,
/// for a directory path without `://` that does not end with `/`, and a
/// nonempty name without `/`.
pub proof fn lemma_child_path(path: Seq<char>, name: Seq<char>)
    requires
        !text::contains_seq(path, scheme_sep()),
        !text::ends_with_seq(path, slash()),
        name.len() > 0,
        !text::contains_seq(name, slash()),
    ensures
        data_uri_to_path(child_data_uri(path, name)) == path + slash() + name,
{
    lemma_path_halves(path);
    lemma_no_slash_no_scheme(name);
    let i = text::first_match(path, slash());
    if i < 0 {
        let uri = path + scheme_sep();
        assert(uri.subrange(uri.len() - 1, uri.len() as int) =~= slash());
        assert(child_data_uri(path, name) == uri + name);
        assert(uri + name =~= path + scheme_sep() + name);
        lemma_path_of_scheme_uri(path, name);
    } else {
        let h = path.subrange(0, i);
        let t = path.subrange(i + 1, path.len() as int);
        text::lemma_sub_no_contains(path, scheme_sep(), i + 1, path.len() as int);
        assert(t.len() > 0) by {
            if t.len() == 0 {
                assert(path.subrange(path.len() - 1, path.len() as int) =~= slash());
            }
        }
        assert(!text::ends_with_seq(t, slash())) by {
            assert(t.subrange(t.len() - 1, t.len() as int) =~= path.subrange(
                path.len() - 1,
                path.len() as int,
            ));
        }
        let uri = h + scheme_sep() + t;
        assert(path_to_data_uri(path) == uri);
        assert(!text::ends_with_seq(uri, slash())) by {
            assert(uri.subrange(uri.len() - 1, uri.len() as int) =~= t.subrange(
                t.len() - 1,
                t.len() as int,
            ));
        }
        assert(child_data_uri(path, name) =~= h + scheme_sep() + (t + slash() + name));
        lemma_no_scheme_in_child(t, name);
        lemma_path_of_scheme_uri(h, t + slash() + name);
        assert(h + slash() + (t + slash() + name) =~= path + slash() + name);
    }
}

/// The basename of the child `name` of a directory is `name`, for a directory
/// path without `://` that does not end with `/`, and a nonempty name without `/`.
pub proof fn law_basename_of_child(path: Seq<char>, name: Seq<char>)
    requires
        !text::contains_seq(path, scheme_sep()),
        !text::ends_with_seq(path, slash()),
        name.len() > 0,
        !text::contains_seq(name, slash()),
    ensures
        path_basename(data_uri_to_path(child_data_uri(path, name))) == name,
{
    lemma_child_path(path, name);
    text::lemma_split_char_concat(path, name, '/');
    text::lemma_split_no_contains(name, slash());
    assert(slash() == seq!['/']);
    let c = path + slash() + name;
    assert(c.last() == name.last());
    assert(name.last() != '/') by {
        text::lemma_match_char(name, '/', name.len() - 1);
    }
    assert(trim_trailing_slashes(c) == c);
}

} // verus!
