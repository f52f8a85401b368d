use vstd::prelude::*;
use vstd::string::StringExecFns;
use crate::errors::InputError;

verus! {

/// Raw child numbers at or above this value are hardened; a path component
/// with a `'` or `h` marker carries this flag.
pub const HARDENED_FLAG: u32 = 0x8000_0000;

/// A parsed hierarchical key-derivation path: the raw child number of each
/// step, hardened steps carrying [`HARDENED_FLAG`].
#[derive(Clone, Debug, PartialEq, Eq)]
pub struct DerivationPath {
    children: Vec<u32>,
}

impl View for DerivationPath {
    type V = Seq<u32>;

    closed spec fn view(&self) -> Seq<u32> {
        self.children@
    }
}

pub open spec fn is_digit(c: char) -> bool {
    '0' <= c && c <= '9'
}

pub open spec fn digit_val(c: char) -> int {
    c as u32 - '0' as u32
}

pub open spec fn all_digits(s: Seq<char>) -> bool {
    forall|i: int| 0 <= i < s.len() ==> is_digit(#[trigger] s[i])
}

/// The numeric value of a digit string, most significant digit first.
pub open spec fn digits_val(s: Seq<char>) -> int
    decreases s.len(),
{
    if s.len() == 0 {
        0
    } else {
        digits_val(s.drop_last()) * 10 + digit_val(s.last())
    }
}

/// A non-empty digit string whose value fits below the hardened flag.
pub open spec fn is_index_digits(s: Seq<char>) -> bool {
    s.len() > 0 && all_digits(s) && digits_val(s) < HARDENED_FLAG
}

pub open spec fn is_hardened_marker(c: char) -> bool {
    c == '\'' || c == 'h'
}

/// A path component: an index, optionally followed by a hardened marker.
pub open spec fn component_ok(s: Seq<char>) -> bool {
    if s.len() > 0 && is_hardened_marker(s.last()) {
        is_index_digits(s.drop_last())
    } else {
        is_index_digits(s)
    }
}

/// The raw child number a component denotes.
pub open spec fn component_val(s: Seq<char>) -> u32 {
    if s.len() > 0 && is_hardened_marker(s.last()) {
        (digits_val(s.drop_last()) + HARDENED_FLAG) as u32
    } else {
        digits_val(s) as u32
    }
}

/// Index of the first `/` in `s`, or `s.len()` if there is none.
pub open spec fn first_slash(s: Seq<char>) -> int
    decreases s.len(),
{
    if s.len() == 0 {
        0
    } else if s[0] == '/' {
        0
    } else {
        1 + first_slash(s.drop_first())
    }
}

pub proof fn lemma_first_slash_bounds(s: Seq<char>)
    ensures
        0 <= first_slash(s) <= s.len(),
        first_slash(s) < s.len() ==> s[first_slash(s)] == '/',
        forall|i: int| 0 <= i < first_slash(s) ==> s[i] != '/',
    decreases s.len(),
{
    if s.len() > 0 && s[0] != '/' {
        lemma_first_slash_bounds(s.drop_first());
        assert forall|i: int| 0 <= i < first_slash(s) implies s[i] != '/' by {
            if i > 0 {
                assert(s.drop_first()[i - 1] != '/');
            }
        }
    }
}

/// `first_slash` is determined by any witness position `k`: no slash before
/// `k`, and `k` is a slash or the end.
pub proof fn lemma_first_slash_at(s: Seq<char>, k: int)
    requires
        0 <= k <= s.len(),
        forall|i: int| 0 <= i < k ==> s[i] != '/',
        k == s.len() || s[k] == '/',
    ensures
        first_slash(s) == k,
    decreases s.len(),
{
    if s.len() > 0 && s[0] != '/' {
        assert forall|i: int| 0 <= i < k - 1 implies s.drop_first()[i] != '/' by {
            assert(s[i + 1] != '/');
        }
        lemma_first_slash_at(s.drop_first(), k - 1);
    }
}

/// The children encoded by what follows the leading `m`: either nothing, or
/// a `/`-introduced component followed by more of the same.
pub open spec fn parse_children(s: Seq<char>) -> Option<Seq<u32>>
    decreases s.len(),
    via parse_children_decreases
{
    if s.len() == 0 {
        Some(Seq::empty())
    } else if s[0] != '/' {
        None
    } else {
        let rest = s.drop_first();
        let k = first_slash(rest);
        let comp = rest.take(k);
        let tail = rest.skip(k);
        if component_ok(comp) {
            match parse_children(tail) {
                Some(t) => Some(seq![component_val(comp)] + t),
                None => None,
            }
        } else {
            None
        }
    }
}

#[via_fn]
proof fn parse_children_decreases(s: Seq<char>) {
    if s.len() > 0 && s[0] == '/' {
        lemma_first_slash_bounds(s.drop_first());
    }
}

/// The grammar of a derivation path string: a leading `m`, then zero or more
/// `/`-separated components. `None` where the string does not parse.
pub open spec fn parse_path(s: Seq<char>) -> Option<Seq<u32>> {
    if s.len() >= 1 && s[0] == 'm' {
        parse_children(s.skip(1))
    } else {
        None
    }
}

/// The characters of `s`, in order, as a vector.
fn chars_of(s: &str) -> (v: Vec<char>)
    ensures
        v@ == s@,
{
    let n = s.unicode_len();
    let mut v: Vec<char> = Vec::new();
    for i in 0..n
        invariant
            n == s@.len(),
            v@.len() == i,
            forall|j: int| 0 <= j < i ==> v@[j] == s@[j],
    {
        v.push(s.get_char(i));
    }
    proof {
        assert(v@ =~= s@);
    }
    v
}

/// Appending a digit multiplies the value by ten and adds the digit.
proof fn lemma_digits_val_step(s: Seq<char>, i: int, j: int)
    requires
        0 <= i <= j < s.len(),
    ensures
        digits_val(s.subrange(i, j + 1)) == digits_val(s.subrange(i, j)) * 10 + digit_val(s[j]),
{
    let w = s.subrange(i, j + 1);
    assert(w.drop_last() =~= s.subrange(i, j));
    assert(w.last() == s[j]);
}

spec fn opt_append(pre: Seq<u32>, rest: Option<Seq<u32>>) -> Option<Seq<u32>> {
    match rest {
        Some(t) => Some(pre + t),
        None => None,
    }
}

/// Reads one path component starting at `start` (just past a `/`): scans to
/// the next `/` or the end, and decodes the index and its optional hardened
/// marker. On success also returns the position of that next `/` or end.
#[verifier::loop_isolation(false)]
fn parse_component(cs: &Vec<char>, start: usize) -> (r: Result<(u32, usize), InputError>)
    requires
        start <= cs@.len(),
    ensures
        ({
            let k = first_slash(cs@.skip(start as int));
            let comp = cs@.skip(start as int).take(k);
            &&& (r matches Ok(p) ==> component_ok(comp) && p.0 == component_val(comp) && p.1
                == start + k && p.1 <= cs@.len() && (p.1 == cs@.len() || cs@[p.1 as int] == '/'))
            &&& (r is Err <==> !component_ok(comp))
            &&& (r matches Err(e) ==> e == InputError::InvalidPath)
        }),
{
    let n = cs.len();
    let ghost rest = cs@.skip(start as int);
    // scan to the end of the component
    let mut j: usize = start;
    while j < n && cs[j] != '/'
        invariant
            start <= j <= n,
            forall|m: int| start <= m < j ==> cs@[m] != '/',
        decreases n - j,
    {
        j = j + 1;
    }
    proof {
        assert forall|m: int| 0 <= m < j - start implies rest[m] != '/' by {
            assert(cs@[m + start] != '/');
        }
        lemma_first_slash_at(rest, j - start);
    }
    let ghost comp = cs@.subrange(start as int, j as int);
    proof {
        assert(comp =~= rest.take(j - start));
    }
    // split off a trailing hardened marker
    let hardened: bool = j > start && (cs[j - 1] == '\'' || cs[j - 1] == 'h');
    let dend: usize = if hardened {
        j - 1
    } else {
        j
    };
    let ghost digits = cs@.subrange(start as int, dend as int);
    proof {
        if hardened {
            assert(comp.len() > 0 && is_hardened_marker(comp.last()));
            assert(digits =~= comp.drop_last());
        } else {
            assert(digits =~= comp);
            assert(!(comp.len() > 0 && is_hardened_marker(comp.last())));
        }
        assert(component_ok(comp) == is_index_digits(digits));
    }
    if dend == start {
        // empty index: the component cannot parse
        proof {
            assert(!component_ok(comp));
        }
        return Err(InputError::InvalidPath);
    }
    // read the index digits, clamping at the hardened flag
    let mut val: u64 = 0;
    let mut d: usize = start;
    while d < dend
        invariant
            start <= d <= dend,
            forall|m: int| start <= m < d ==> is_digit(#[trigger] cs@[m]),
            digits_val(cs@.subrange(start as int, d as int)) >= 0,
            val == if digits_val(cs@.subrange(start as int, d as int)) < HARDENED_FLAG {
                digits_val(cs@.subrange(start as int, d as int))
            } else {
                HARDENED_FLAG as int
            },
        decreases dend - d,
    {
        let c = cs[d];
        if !('0' <= c && c <= '9') {
            // a non-digit inside the index: the component cannot parse
            proof {
                assert(digits[d - start] == c);
                assert(!all_digits(digits));
            }
            return Err(InputError::InvalidPath);
        }
        proof {
            lemma_digits_val_step(cs@, start as int, d as int);
        }
        let dv: u64 = (c as u32 - '0' as u32) as u64;
        val = if val >= HARDENED_FLAG as u64 {
            HARDENED_FLAG as u64
        } else if val * 10 + dv >= HARDENED_FLAG as u64 {
            HARDENED_FLAG as u64
        } else {
            val * 10 + dv
        };
        d = d + 1;
    }
    proof {
        assert(all_digits(digits));
    }
    if val >= HARDENED_FLAG as u64 {
        // the index does not fit below the hardened flag
        proof {
            assert(digits_val(digits) >= HARDENED_FLAG);
            assert(!is_index_digits(digits));
        }
        return Err(InputError::InvalidPath);
    }
    let child: u32 = if hardened {
        (val as u32) + HARDENED_FLAG
    } else {
        val as u32
    };
    proof {
        assert(is_index_digits(digits));
        assert(component_ok(comp));
        assert(child == component_val(comp));
    }
    Ok((child, j))
}

/// Parses a derivation path string against the path grammar. Exactly the
/// strings of [`parse_path`] are accepted, and the children come back as the
/// grammar gives them; everything else is an input error.
#[verifier::loop_isolation(false)]
pub fn create_derivation_path(input: &str) -> (r: Result<DerivationPath, InputError>)
    ensures
        r matches Ok(p) ==> parse_path(input@) == Some(p@),
        r is Err <==> parse_path(input@) is None,
        r matches Err(e) ==> e == InputError::InvalidPath,
{
    let cs = chars_of(input);
    let n = cs.len();
    if n == 0 || cs[0] != 'm' {
        return Err(InputError::InvalidPath);
    }
    let mut children: Vec<u32> = Vec::new();
    let mut i: usize = 1;
    while i < n
        invariant
            cs@ == input@,
            n == cs@.len(),
            1 <= i <= n,
            n >= 1 && cs@[0] == 'm',
            parse_path(input@) == opt_append(children@, parse_children(input@.skip(i as int))),
        decreases n - i,
    {
        let ghost rem = input@.skip(i as int);
        if cs[i] != '/' {
            // the next component is not introduced by a slash
            proof {
                assert(rem[0] != '/');
                assert(parse_children(rem) is None);
            }
            return Err(InputError::InvalidPath);
        }
        let ghost rest = rem.drop_first();
        proof {
            assert(rest =~= input@.skip(i + 1));
        }
        let ghost k = first_slash(rest);
        let ghost comp = rest.take(k);
        proof {
            lemma_first_slash_bounds(rest);
        }
        match parse_component(&cs, i + 1) {
            Err(e) => {
                // the component is malformed, so the whole path is
                proof {
                    assert(rem.len() > 0 && rem[0] == '/');
                    assert(rem.drop_first() == rest);
                    assert(!component_ok(comp));
                    assert(parse_children(rem) is None);
                }
                return Err(e);
            },
            Ok((child, j)) => {
                let ghost prev = children@;
                children.push(child);
                proof {
                    let tail = rest.skip(k);
                    assert(tail =~= input@.skip(j as int));
                    assert(rem.len() > 0 && rem[0] == '/');
                    assert(rem.drop_first() == rest);
                    assert(parse_children(rem) == match parse_children(tail) {
                        Some(t) => Some(seq![component_val(comp)] + t),
                        None => None,
                    });
                    assert(children@ =~= prev + seq![component_val(comp)]);
                    match parse_children(tail) {
                        Some(t) => {
                            assert(prev + (seq![component_val(comp)] + t) =~= (prev + seq![
                                component_val(comp),
                            ]) + t);
                        },
                        None => {},
                    }
                }
                i = j;
            },
        }
    }
    proof {
        assert(input@.skip(i as int) =~= Seq::<char>::empty());
        assert(children@ + Seq::<u32>::empty() =~= children@);
    }
    Ok(DerivationPath { children })
}

impl DerivationPath {
    /// The raw child numbers, in order.
    pub fn children(&self) -> (r: &Vec<u32>)
        ensures
            r@ == self@,
    {
        &self.children
    }
}

/// Builds the external/internal path pair of a template: the template text
/// with a trailing receive index `0` and change index `1`, each parsed
/// against the path grammar.
pub fn create_derivation_paths_with_last_index(input: &str) -> (r: Result<
    (DerivationPath, DerivationPath),
    InputError,
>)
    ensures
        r matches Ok(p) ==> parse_path(input@ + "0"@) == Some(p.0@) && parse_path(input@ + "1"@)
            == Some(p.1@),
        r is Err <==> parse_path(input@ + "0"@) is None || parse_path(input@ + "1"@) is None,
        r matches Err(e) ==> e == InputError::InvalidPath,
{
    let mut receive: String = input.to_owned();
    receive.append("0");
    let mut change: String = input.to_owned();
    change.append("1");
    let external = match create_derivation_path(receive.as_str()) {
        Ok(p) => p,
        Err(e) => {
            return Err(e);
        },
    };
    let internal = match create_derivation_path(change.as_str()) {
        Ok(p) => p,
        Err(e) => {
            return Err(e);
        },
    };
    Ok((external, internal))
}

/// Path generation is deterministic: any two successful generations from the
/// same template text yield the same external/internal child numbers.
pub proof fn lemma_path_generation_deterministic(
    template: Seq<char>,
    a: (Seq<u32>, Seq<u32>),
    b: (Seq<u32>, Seq<u32>),
)
    requires
        parse_path(template + "0"@) == Some(a.0),
        parse_path(template + "1"@) == Some(a.1),
        parse_path(template + "0"@) == Some(b.0),
        parse_path(template + "1"@) == Some(b.1),
    ensures
        a == b,
{
}

} // verus!
