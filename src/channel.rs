//! The channel name that the application and its reporter process agree on,
//! and the process argument that carries it to the reporter.
use vstd::prelude::*;

verus! {

/// Whether `c` may stand in a channel name unchanged (ASCII letters and digits).
pub open spec fn is_ascii_alnum(c: char) -> bool {
    ('a' <= c && c <= 'z') || ('A' <= c && c <= 'Z') || ('0' <= c && c <= '9')
}

/// The alphabet of channel names: ASCII letters, digits and `-`.
pub open spec fn is_channel_char(c: char) -> bool {
    is_ascii_alnum(c) || c == '-'
}

/// A lower-case hexadecimal digit or `-`: the characters of a hyphenated UUID.
pub open spec fn is_uuid_char(c: char) -> bool {
    ('0' <= c && c <= '9') || ('a' <= c && c <= 'f') || c == '-'
}

/// The release identifier with every character outside `[A-Za-z0-9]` replaced by `-`.
pub open spec fn sanitized(release: Seq<char>) -> Seq<char> {
    Seq::new(release.len(), |i: int| if is_ascii_alnum(release[i]) { release[i] } else { '-' })
}

/// The channel name for a release and a disambiguating token.
pub open spec fn channel_name_of(release: Seq<char>, token: Seq<char>) -> Seq<char> {
    sanitized(release) + seq!['-'] + token
}

/// Whether `c` is an ASCII letter or digit.
pub fn is_alnum(c: char) -> (r: bool)
    ensures
        r == is_ascii_alnum(c),
{
    ('a' <= c && c <= 'z') || ('A' <= c && c <= 'Z') || ('0' <= c && c <= '9')
}

/// Relies on `String::push`: appends one character.
#[verifier::external_body]
fn push_char(s: &mut String, c: char)
    ensures
        final(s)@ == old(s)@.push(c),
{
    s.push(c)
}

/// Replaces every character of `release` outside `[A-Za-z0-9]` by `-`.
pub fn sanitize_release(release: &str) -> (r: String)
    ensures
        r@ == sanitized(release@),
{
    let n = release.unicode_len();
    let mut out = String::new();
    let mut i: usize = 0;
    while i < n
        invariant
            n == release@.len(),
            i <= n,
            out@ =~= sanitized(release@).subrange(0, i as int),
        decreases n - i,
    {
        let c = release.get_char(i);
        if is_alnum(c) {
            push_char(&mut out, c);
        } else {
            push_char(&mut out, '-');
        }
        i = i + 1;
    }
    out
}

/// The flag that marks a process as the crash reporter; its value is the channel name.
pub const CRASH_REPORTER_ARG: &'static str = "--crash-reporter-server";

/// The flag as a sequence of characters.
pub open spec fn reporter_flag() -> Seq<char> {
    seq!['-', '-', 'c', 'r', 'a', 's', 'h', '-', 'r', 'e', 'p', 'o', 'r', 't', 'e', 'r', '-', 's', 'e', 'r', 'v', 'e', 'r']
}

/// The argument handed to the reporter process: `<flag>=<channel name>`.
pub open spec fn reporter_arg_of(name: Seq<char>) -> Seq<char> {
    reporter_flag() + seq!['='] + name
}

/// Whether `pre` is a prefix of `s`.
pub open spec fn has_prefix(s: Seq<char>, pre: Seq<char>) -> bool {
    pre.len() <= s.len() && s.subrange(0, pre.len() as int) == pre
}

/// Whether `c` occurs in `s`.
pub open spec fn has_char(s: Seq<char>, c: char) -> bool {
    exists|i: int| 0 <= i < s.len() && s[i] == c
}

/// The part of `s` after its last `=`, or all of `s` where it holds none.
pub open spec fn after_last_eq(s: Seq<char>) -> Seq<char>
    decreases s.len(),
{
    if s.len() == 0 {
        s
    } else if s.last() == '=' {
        Seq::empty()
    } else {
        after_last_eq(s.drop_last()).push(s.last())
    }
}

/// The index of the first argument that starts with the flag, if any.
pub open spec fn first_flag_index(args: Seq<Seq<char>>) -> Option<int> {
    if exists|i: int| 0 <= i < args.len() && has_prefix(#[trigger] args[i], reporter_flag()) {
        let i = choose|i: int|
            0 <= i < args.len() && has_prefix(#[trigger] args[i], reporter_flag())
                && forall|j: int| 0 <= j < i ==> !has_prefix(#[trigger] args[j], reporter_flag());
        Some(i)
    } else {
        None
    }
}

/// The flag as a string.
fn flag_string() -> (r: String)
    ensures
        r@ == reporter_flag(),
{
    proof {
        reveal_strlit("--crash-reporter-server");
    }
    let r = String::from_str(CRASH_REPORTER_ARG);
    assert(r@ =~= reporter_flag());
    r
}

/// The channel name for `release` and `token`: the sanitized release, `-`, the token.
pub fn channel_name(release: &str, token: &str) -> (r: String)
    ensures
        r@ == channel_name_of(release@, token@),
{
    let mut r = sanitize_release(release);
    push_char(&mut r, '-');
    r.append(token);
    r
}

/// Relies on `uuid::Uuid::new_v4` and its `Display`: a random UUID written as
/// 36 characters, lower-case hexadecimal digits and `-`.
#[verifier::external_body]
pub(crate) fn random_token() -> (r: String)
    ensures
        r@.len() == 36,
        forall|i: int| 0 <= i < r@.len() ==> is_uuid_char(#[trigger] r@[i]),
{
    uuid::Uuid::new_v4().to_string()
}

/// A fresh channel name for `release`, made unique by a random token.
pub fn new_channel_name(release: &str) -> (r: String)
    ensures
        forall|i: int| 0 <= i < r@.len() ==> is_channel_char(#[trigger] r@[i]),
        exists|token: Seq<char>|
            token.len() == 36 && (forall|i: int| 0 <= i < token.len() ==> is_uuid_char(#[trigger] token[i]))
                && r@ == channel_name_of(release@, token),
{
    let token = random_token();
    proof {
        lemma_channel_name_alphabet(release@, token@);
    }
    channel_name(release, token.as_str())
}

/// The process argument that hands `name` to the reporter.
pub fn reporter_arg(name: &str) -> (r: String)
    ensures
        r@ == reporter_arg_of(name@),
{
    let mut r = flag_string();
    push_char(&mut r, '=');
    r.append(name);
    r
}

/// Whether `s` starts with the flag.
fn starts_with_flag(s: &str) -> (r: bool)
    ensures
        r == has_prefix(s@, reporter_flag()),
{
    let flag = flag_string();
    let f = flag.as_str();
    let n = f.unicode_len();
    let m = s.unicode_len();
    if m < n {
        return false;
    }
    let mut i: usize = 0;
    while i < n
        invariant
            n == f@.len(),
            f@ == reporter_flag(),
            m == s@.len(),
            n <= m,
            i <= n,
            forall|j: int| 0 <= j < i ==> s@[j] == f@[j],
        decreases n - i,
    {
        if s.get_char(i) != f.get_char(i) {
            assert(s@.subrange(0, n as int)[i as int] != f@[i as int]);
            return false;
        }
        i = i + 1;
    }
    assert(s@.subrange(0, n as int) =~= f@);
    true
}

/// Where `from` is just past the last `=` of `s` (or 0 where it holds none),
/// the part after the last `=` is `s` from `from` on.
proof fn lemma_after_last_eq_tail(s: Seq<char>, from: int)
    requires
        0 <= from <= s.len(),
        forall|j: int| from <= j < s.len() ==> s[j] != '=',
        from == 0 || s[from - 1] == '=',
    ensures
        after_last_eq(s) == s.subrange(from, s.len() as int),
    decreases s.len(),
{
    if s.len() == from {
        if s.len() > 0 {
            assert(s.last() == '=');
        }
        assert(s.subrange(from, s.len() as int) =~= Seq::<char>::empty());
    } else {
        lemma_after_last_eq_tail(s.drop_last(), from);
        assert(s.subrange(from, s.len() as int) =~= s.drop_last().subrange(from, s.len() - 1).push(
            s.last(),
        ));
    }
}

/// The part of `s` after its last `=` (all of `s` where it holds none).
pub fn value_after_last_eq(s: &str) -> (r: String)
    ensures
        r@ == after_last_eq(s@),
{
    let n = s.unicode_len();
    let mut start: usize = 0;
    let mut i: usize = 0;
    while i < n
        invariant
            n == s@.len(),
            start <= i <= n,
            forall|j: int| start <= j < i ==> s@[j] != '=',
            start == 0 || s@[start - 1] == '=',
        decreases n - i,
    {
        if s.get_char(i) == '=' {
            start = i + 1;
        }
        i = i + 1;
    }
    proof {
        lemma_after_last_eq_tail(s@, start as int);
    }
    String::from_str(s.substring_char(start, n))
}

/// The channel name carried by the first argument that starts with the flag:
/// what follows the last `=` in it. `None` where no argument starts with the flag.
pub fn channel_from_args(args: &Vec<String>) -> (r: Option<String>)
    ensures
        match first_flag_index(args@.map_values(|a: String| a@)) {
            None => r.is_none(),
            Some(i) => r.is_some() && r.unwrap()@ == after_last_eq(args@[i]@),
        },
{
    let ghost views = args@.map_values(|a: String| a@);
    let mut i: usize = 0;
    while i < args.len()
        invariant
            views == args@.map_values(|a: String| a@),
            i <= args.len(),
            forall|j: int| 0 <= j < i ==> !has_prefix(#[trigger] views[j], reporter_flag()),
        decreases args.len() - i,
    {
        if starts_with_flag(args[i].as_str()) {
            proof {
                assert(has_prefix(views[i as int], reporter_flag()));
                let k = choose|k: int|
                    0 <= k < views.len() && has_prefix(#[trigger] views[k], reporter_flag())
                        && forall|j: int| 0 <= j < k ==> !has_prefix(#[trigger] views[j], reporter_flag());
                if k < i {
                    assert(!has_prefix(views[k], reporter_flag()));
                } else if k > i {
                    assert(!has_prefix(views[i as int], reporter_flag()));
                }
            }
            return Some(value_after_last_eq(args[i].as_str()));
        }
        i = i + 1;
    }
    None
}

/// Every character of a sanitized release id is a letter, a digit or `-`.
pub proof fn lemma_sanitized_alphabet(release: Seq<char>)
    ensures
        sanitized(release).len() == release.len(),
        forall|i: int| 0 <= i < release.len() ==> is_channel_char(#[trigger] sanitized(release)[i]),
{
}

/// A channel name made from any release and a UUID token holds only letters,
/// digits and `-`.
pub proof fn lemma_channel_name_alphabet(release: Seq<char>, token: Seq<char>)
    requires
        forall|i: int| 0 <= i < token.len() ==> is_uuid_char(#[trigger] token[i]),
    ensures
        forall|i: int|
            0 <= i < channel_name_of(release, token).len() ==> is_channel_char(
                #[trigger] channel_name_of(release, token)[i],
            ),
{
    let name = channel_name_of(release, token);
    let n = release.len() as int;
    assert forall|i: int| 0 <= i < name.len() implies is_channel_char(#[trigger] name[i]) by {
        if i < n {
            assert(name[i] == sanitized(release)[i]);
        } else if i == n {
            assert(name[i] == '-');
        } else {
            assert(name[i] == token[i - n - 1]);
        }
    }
}

/// For one release, two channel names are equal exactly when their tokens are:
/// the name without a token depends on the release alone, and distinct tokens
/// give distinct names.
pub proof fn lemma_channel_name_injective(release: Seq<char>, t1: Seq<char>, t2: Seq<char>)
    ensures
        channel_name_of(release, t1) == channel_name_of(release, t2) <==> t1 == t2,
{
    let p = sanitized(release) + seq!['-'];
    if channel_name_of(release, t1) == channel_name_of(release, t2) {
        assert(t1 =~= channel_name_of(release, t1).subrange(p.len() as int, channel_name_of(release, t1).len() as int));
        assert(t2 =~= channel_name_of(release, t2).subrange(p.len() as int, channel_name_of(release, t2).len() as int));
    }
}

/// Two instances of one release that draw distinct UUID tokens get distinct
/// channel names, both made of letters, digits and `-` only.
pub proof fn lemma_distinct_draws_distinct_names(release: Seq<char>, t1: Seq<char>, t2: Seq<char>)
    requires
        forall|i: int| 0 <= i < t1.len() ==> is_uuid_char(#[trigger] t1[i]),
        forall|i: int| 0 <= i < t2.len() ==> is_uuid_char(#[trigger] t2[i]),
        t1 != t2,
    ensures
        channel_name_of(release, t1) != channel_name_of(release, t2),
        forall|i: int|
            0 <= i < channel_name_of(release, t1).len() ==> is_channel_char(
                #[trigger] channel_name_of(release, t1)[i],
            ),
        forall|i: int|
            0 <= i < channel_name_of(release, t2).len() ==> is_channel_char(
                #[trigger] channel_name_of(release, t2)[i],
            ),
{
    lemma_channel_name_injective(release, t1, t2);
    lemma_channel_name_alphabet(release, t1);
    lemma_channel_name_alphabet(release, t2);
}

/// A channel name never holds `=`.
pub proof fn lemma_channel_name_has_no_eq(release: Seq<char>, token: Seq<char>)
    requires
        forall|i: int| 0 <= i < token.len() ==> is_uuid_char(#[trigger] token[i]),
    ensures
        !has_char(channel_name_of(release, token), '='),
{
    lemma_channel_name_alphabet(release, token);
}

/// The reporter reads back, from the argument made for `name`, the name itself,
/// wherever the name holds no `=`.
pub proof fn lemma_reporter_arg_round_trip(name: Seq<char>)
    requires
        !has_char(name, '='),
    ensures
        has_prefix(reporter_arg_of(name), reporter_flag()),
        after_last_eq(reporter_arg_of(name)) == name,
{
    let a = reporter_arg_of(name);
    let from = reporter_flag().len() as int + 1;
    assert(a.subrange(0, reporter_flag().len() as int) =~= reporter_flag());
    assert forall|j: int| from <= j < a.len() implies a[j] != '=' by {
        assert(a[j] == name[j - from]);
    }
    lemma_after_last_eq_tail(a, from);
    assert(a.subrange(from, a.len() as int) =~= name);
}

} // verus!
