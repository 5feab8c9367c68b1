use vstd::prelude::*;
use vstd::string::*;

use crate::tdms_object::TdmsObject;
use crate::util::push_char;

verus! {

/// The number of `/` in a path.
pub open spec fn slash_count(s: Seq<char>) -> nat
    decreases s.len(),
{
    if s.len() == 0 {
        0
    } else {
        slash_count(s.drop_last()) + if s.last() == '/' { 1nat } else { 0nat }
    }
}

/// What follows the last `/` of a path (the whole path if it has none).
pub open spec fn last_part(s: Seq<char>) -> Seq<char>
    decreases s.len(),
{
    if s.len() == 0 {
        s
    } else if s.last() == '/' {
        Seq::empty()
    } else {
        last_part(s.drop_last()).push(s.last())
    }
}

/// A path without its last part and the `/` before it (the whole path if it has no `/`).
pub open spec fn before_last_slash(s: Seq<char>) -> Seq<char>
    decreases s.len(),
{
    if s.len() == 0 {
        s
    } else if s.last() == '/' {
        s.drop_last()
    } else {
        before_last_slash(s.drop_last())
    }
}

/// A character with ASCII upper case letters folded to lower case.
pub open spec fn ascii_lower(c: char) -> char {
    if 'A' <= c && c <= 'Z' {
        ((c as u32 + 32) as u8) as char
    } else {
        c
    }
}

/// A name with ASCII upper case letters folded to lower case.
pub open spec fn lower(s: Seq<char>) -> Seq<char> {
    s.map_values(|c: char| ascii_lower(c))
}

/// Two names are equal up to ASCII case.
pub open spec fn same_ignoring_case(a: Seq<char>, b: Seq<char>) -> bool {
    lower(a) == lower(b)
}

/// The root object's path.
pub open spec fn is_root_path(s: Seq<char>) -> bool {
    s == seq!['/']
}

/// The group's name, quotes included, where the path is that of a group.
pub open spec fn group_name_of(s: Seq<char>) -> Option<Seq<char>> {
    if slash_count(s) == 1 { Some(last_part(s)) } else { None }
}

/// The channel's name, quotes included, where the path is that of a channel.
pub open spec fn channel_name_of(s: Seq<char>) -> Option<Seq<char>> {
    if slash_count(s) == 2 { Some(last_part(s)) } else { None }
}

/// The group name, quotes included, where the path is that of a channel:
/// the part between its two `/`.
pub open spec fn channel_group_of(s: Seq<char>) -> Option<Seq<char>> {
    if slash_count(s) == 2 { Some(last_part(before_last_slash(s))) } else { None }
}

/// The path starts with `/`, as every object path of the format does.
pub open spec fn starts_with_slash(s: Seq<char>) -> bool {
    s.len() > 0 && s[0] == '/'
}

/// The path is refused on its group: it is not the root, and it is either of
/// no known shape (not starting with `/`, or neither one `/` as a group has
/// nor two as a channel has), or a group, or a channel of a group, other than
/// the stream group (in any case).
pub open spec fn group_rejected(s: Seq<char>) -> bool {
    &&& !is_root_path(s)
    &&& !starts_with_slash(s) || match group_name_of(s) {
        Some(n) => !same_ignoring_case(n, "'stream'"@),
        None => match channel_group_of(s) {
            Some(g) => !same_ignoring_case(g, "'stream'"@),
            None => true,
        },
    }
}

/// A channel name, quotes included, that this format allows.
pub open spec fn allowed_channel(n: Seq<char>) -> bool {
    same_ignoring_case(n, "'data'"@) || same_ignoring_case(n, "'index'"@) || same_ignoring_case(n, "'timestamp'"@)
        || same_ignoring_case(n, "'header'"@) || same_ignoring_case(n, "'metadata'"@)
}

/// The path is that of a channel this format does not allow.
pub open spec fn channel_rejected(s: Seq<char>) -> bool {
    &&& !is_root_path(s)
    &&& match channel_name_of(s) {
        Some(n) => !allowed_channel(n),
        None => false,
    }
}

/// The path is that of the timestamp channel.
pub open spec fn is_timestamp_path(s: Seq<char>) -> bool {
    match channel_name_of(s) {
        Some(n) => same_ignoring_case(n, "'timestamp'"@),
        None => false,
    }
}

/// The number of `/` in the path, what follows the last one, and the part
/// before that.
fn scan_path(path: &String) -> (r: (usize, String, String))
    ensures
        r.0 == slash_count(path@),
        r.1@ == last_part(path@),
        r.2@ == last_part(before_last_slash(path@)),
{
    let s = path.as_str();
    let n = s.unicode_len();
    let mut count: usize = 0;
    let mut part = String::new();
    let mut prev = String::new();
    let mut i: usize = 0;
    assert(path@.subrange(0, 0) =~= Seq::<char>::empty());
    assert(part@ =~= last_part(path@.subrange(0, 0)));
    while i < n
        invariant
            i <= n,
            n == path@.len(),
            s@ == path@,
            count == slash_count(path@.subrange(0, i as int)),
            count <= i,
            part@ == last_part(path@.subrange(0, i as int)),
            prev@ == last_part(before_last_slash(path@.subrange(0, i as int))),
        decreases n - i,
    {
        let c = s.get_char(i);
        let ghost pre = path@.subrange(0, i as int);
        assert(path@.subrange(0, i + 1).drop_last() =~= pre);
        if c == '/' {
            count = count + 1;
            prev = part;
            part = String::new();
        } else {
            push_char(&mut part, c);
        }
        i = i + 1;
    }
    assert(path@.subrange(0, n as int) =~= path@);
    (count, part, prev)
}

fn lower_char(c: char) -> (r: char)
    ensures
        r == ascii_lower(c),
{
    if 'A' <= c && c <= 'Z' {
        (c as u8 + 32) as char
    } else {
        c
    }
}

/// Whether two names are equal up to ASCII case.
fn eq_ignoring_case(name: &str, lit: &str) -> (r: bool)
    ensures
        r == same_ignoring_case(name@, lit@),
{
    let n = name.unicode_len();
    let m = lit.unicode_len();
    if n != m {
        assert(lower(name@).len() != lower(lit@).len());
        return false;
    }
    let mut i: usize = 0;
    while i < n
        invariant
            i <= n,
            n == name@.len(),
            m == n,
            m == lit@.len(),
            forall|k: int| 0 <= k < i ==> ascii_lower(#[trigger] name@[k]) == ascii_lower(lit@[k]),
        decreases n - i,
    {
        if lower_char(name.get_char(i)) != lower_char(lit.get_char(i)) {
            assert(lower(name@)[i as int] != lower(lit@)[i as int]);
            return false;
        }
        i = i + 1;
    }
    assert(lower(name@) =~= lower(lit@));
    true
}

/// The root object has the path `/`.
pub fn is_root(x: &TdmsObject) -> (r: bool)
    ensures
        r == is_root_path(x.path@),
{
    let s = x.path.as_str();
    if s.unicode_len() != 1 {
        return false;
    }
    let c = s.get_char(0);
    assert(c == '/' ==> x.path@ =~= seq!['/']);
    c == '/'
}

/// The group name, quotes included, of an object whose path has exactly one `/`.
pub fn get_group_name(object: &TdmsObject) -> (r: Option<String>)
    ensures
        r matches Some(n) ==> group_name_of(object.path@) == Some(n@),
        r is None ==> group_name_of(object.path@) is None,
{
    let (count, part, _) = scan_path(&object.path);
    if count == 1 { Some(part) } else { None }
}

/// The channel name, quotes included, of an object whose path has exactly two `/`.
pub fn get_channel_name(object: &TdmsObject) -> (r: Option<String>)
    ensures
        r matches Some(n) ==> channel_name_of(object.path@) == Some(n@),
        r is None ==> channel_name_of(object.path@) is None,
{
    let (count, part, _) = scan_path(&object.path);
    if count == 2 { Some(part) } else { None }
}

/// True where the object must be refused for its group: a group, or a channel
/// of a group, other than the stream group (in any case), or a path that is
/// neither the root, a group nor a channel (one that does not start with `/`
/// included).
pub fn is_valid_group(x: &TdmsObject) -> (r: bool)
    ensures
        r == group_rejected(x.path@),
{
    if is_root(x) {
        return false;
    }
    let s = x.path.as_str();
    if s.unicode_len() == 0 || s.get_char(0) != '/' {
        return true;
    }
    let (count, part, prev) = scan_path(&x.path);
    if count == 1 {
        !eq_ignoring_case(part.as_str(), "'stream'")
    } else if count == 2 {
        !eq_ignoring_case(prev.as_str(), "'stream'")
    } else {
        true
    }
}

/// True where the object is a channel whose name (in any case) is not one of
/// `'data'`, `'index'`, `'timestamp'`, `'header'`, `'metadata'`.
pub fn is_valid_channel(x: &TdmsObject) -> (r: bool)
    ensures
        r == channel_rejected(x.path@),
{
    if is_root(x) {
        return false;
    }
    match get_channel_name(x) {
        Some(name) => {
            let n = name.as_str();
            !(eq_ignoring_case(n, "'data'") || eq_ignoring_case(n, "'index'") || eq_ignoring_case(n, "'timestamp'")
                || eq_ignoring_case(n, "'header'") || eq_ignoring_case(n, "'metadata'"))
        },
        None => false,
    }
}

/// The object is the channel `'timestamp'`, in any case.
pub fn is_timestamp_channel(tdms_object: &TdmsObject) -> (r: bool)
    ensures
        r == is_timestamp_path(tdms_object.path@),
{
    match get_channel_name(tdms_object) {
        Some(name) => eq_ignoring_case(name.as_str(), "'timestamp'"),
        None => false,
    }
}

} // verus!
