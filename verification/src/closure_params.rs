//! The parameter types a closure argument should take, read off the
//! callee's declared parameter type when that is a function type
//! `func(A, B) -> R`.

use vstd::prelude::*;
use crate::json_decode::string_views;
use crate::lowerer::MirLowerer;
use crate::text::{trim, trim_spec};

verus! {

/// How the nesting changes at position `k` of `s`: up at `(`, `<` and `[`,
/// down at `)`, `]`, and at a `>` that does not close an arrow `->`.
pub open spec fn nest_step(s: Seq<char>, k: int) -> int {
    if s[k] == '(' || s[k] == '<' || s[k] == '[' {
        1
    } else if s[k] == ')' || s[k] == ']' {
        -1
    } else if s[k] == '>' && !(k > 0 && s[k - 1] == '-') {
        -1
    } else {
        0
    }
}

/// How deep position `i` of `s` sits inside brackets of any kind.
pub open spec fn nest(s: Seq<char>, i: int) -> int
    decreases i,
{
    if i <= 0 {
        0
    } else {
        nest(s, i - 1) + nest_step(s, i - 1)
    }
}

/// The trimmed pieces that the commas of `s` outside every bracket close
/// before position `i`, and where the piece still open at `i` starts.
pub open spec fn param_prefix(s: Seq<char>, i: int) -> (Seq<Seq<char>>, int)
    decreases i,
{
    if i <= 0 {
        (Seq::empty(), 0)
    } else {
        let (out, start) = param_prefix(s, i - 1);
        if s[i - 1] == ',' && nest(s, i - 1) == 0 {
            (out.push(trim_spec(s.subrange(start, i - 1))), i)
        } else {
            (out, start)
        }
    }
}

/// A parameter list split on its commas outside every bracket, each piece
/// trimmed; the piece after the last comma is dropped when it is empty once
/// trimmed, so `""` has no parameters.
pub open spec fn split_params_spec(s: Seq<char>) -> Seq<Seq<char>> {
    let (out, start) = param_prefix(s, s.len() as int);
    let tail = trim_spec(s.subrange(start, s.len() as int));
    if tail.len() > 0 {
        out.push(tail)
    } else {
        out
    }
}

/// The first position from `k` on of a `)` of `u` outside every bracket
/// opened in `u`.
pub open spec fn close_from(u: Seq<char>, k: int) -> Option<int>
    decreases u.len() - k,
{
    if k < 0 || k >= u.len() {
        None
    } else if u[k] == ')' && nest(u, k) == 0 {
        Some(k)
    } else {
        close_from(u, k + 1)
    }
}

/// Whether `t` begins `func(`.
pub open spec fn starts_func(t: Seq<char>) -> bool {
    &&& t.len() >= 5
    &&& t[0] == 'f'
    &&& t[1] == 'u'
    &&& t[2] == 'n'
    &&& t[3] == 'c'
    &&& t[4] == '('
}

/// The parameter types of a function type written `func(A, B) -> R`: the
/// text between `func(` and the `)` that closes it, split on its commas
/// outside any bracket, each trimmed. Nothing for text that is not a
/// function type, or whose parameter list is not closed.
pub open spec fn fn_type_params_spec(s: Seq<char>) -> Option<Seq<Seq<char>>> {
    let t = trim_spec(s);
    if starts_func(t) {
        let u = t.subrange(5, t.len() as int);
        match close_from(u, 0) {
            Some(c) => Some(split_params_spec(u.subrange(0, c))),
            None => None,
        }
    } else {
        None
    }
}

/// Where the open piece starts lies within what has been read.
proof fn lemma_param_prefix_start(s: Seq<char>, i: int)
    requires
        0 <= i <= s.len(),
    ensures
        0 <= param_prefix(s, i).1 <= i,
    decreases i,
{
    if i > 0 {
        lemma_param_prefix_start(s, i - 1);
    }
}

/// The nesting moves by at most one a character.
proof fn lemma_nest_bounded(s: Seq<char>, i: int)
    requires
        0 <= i,
    ensures
        -i <= nest(s, i) <= i,
    decreases i,
{
    if i > 0 {
        lemma_nest_bounded(s, i - 1);
    }
}

/// How the nesting changes at position `i` of `s`, read off the text.
fn nest_delta(s: &str, i: usize) -> (r: i32)
    requires
        i < s@.len(),
    ensures
        r == nest_step(s@, i as int),
{
    let c = s.get_char(i);
    if c == '(' || c == '<' || c == '[' {
        1
    } else if c == ')' || c == ']' {
        -1
    } else if c == '>' && !(i > 0 && s.get_char(i - 1) == '-') {
        -1
    } else {
        0
    }
}

/// A parameter list split on the commas outside every bracket, each piece
/// trimmed: `"i64, Map<K, V>"` gives `i64` and `Map<K, V>`.
pub fn split_params(s: &str) -> (r: Vec<String>)
    requires
        s@.len() <= i32::MAX,
    ensures
        string_views(r@) == split_params_spec(s@),
{
    let n = s.unicode_len();
    let mut out: Vec<String> = Vec::new();
    let mut depth: i32 = 0;
    let mut start: usize = 0;
    let mut i: usize = 0;
    while i < n
        invariant
            n == s@.len(),
            n <= i32::MAX,
            i <= n,
            depth == nest(s@, i as int),
            start == param_prefix(s@, i as int).1,
            string_views(out@) == param_prefix(s@, i as int).0,
        decreases n - i,
    {
        proof {
            lemma_param_prefix_start(s@, i as int);
            lemma_nest_bounded(s@, i as int);
        }
        let c = s.get_char(i);
        if c == ',' && depth == 0 {
            let piece = trim(s.substring_char(start, i));
            out.push(piece);
            start = i + 1;
            proof {
                assert(string_views(out@) =~= param_prefix(s@, i + 1).0);
            }
        }
        let d = nest_delta(s, i);
        depth = depth + d;
        i = i + 1;
    }
    proof {
        lemma_param_prefix_start(s@, n as int);
    }
    let tail = trim(s.substring_char(start, n));
    if tail.unicode_len() > 0 {
        out.push(tail);
        proof {
            assert(string_views(out@) =~= split_params_spec(s@));
        }
    }
    out
}

/// The parameter types of a function type `func(A, B) -> R`; see
/// `fn_type_params_spec`.
pub fn fn_type_param_strs(s: &str) -> (r: Option<Vec<String>>)
    requires
        s@.len() <= i32::MAX,
    ensures
        match fn_type_params_spec(s@) {
            Some(ps) => r matches Some(v) && string_views(v@) == ps,
            None => r is None,
        },
{
    let t = trim(s);
    let n = t.unicode_len();
    proof {
        assert(trim_spec(s@).len() <= s@.len()) by {
            crate::text::lemma_trim_shorter(s@);
        }
    }
    if n < 5 || t.get_char(0) != 'f' || t.get_char(1) != 'u' || t.get_char(2) != 'n' || t.get_char(3) != 'c'
        || t.get_char(4) != '(' {
        return None;
    }
    let u = t.as_str().substring_char(5, n);
    proof {
        assert(starts_func(t@));
    }
    let ul = u.unicode_len();
    let mut depth: i32 = 0;
    let mut k: usize = 0;
    while k < ul
        invariant
            ul == u@.len(),
            ul <= i32::MAX,
            k <= ul,
            depth == nest(u@, k as int),
            close_from(u@, 0) == close_from(u@, k as int),
            t@ == trim_spec(s@),
            starts_func(t@),
            u@ == t@.subrange(5, t@.len() as int),
        decreases ul - k,
    {
        proof {
            lemma_nest_bounded(u@, k as int);
        }
        let ch = u.get_char(k);
        if ch == ')' && depth == 0 {
            let params = u.substring_char(0, k);
            proof {
                assert(u@[k as int] == ')');
                assert(nest(u@, k as int) == 0);
                assert(close_from(u@, k as int) == Some(k as int));
                assert(starts_func(t@));
                assert(u@ == trim_spec(s@).subrange(5, trim_spec(s@).len() as int));
            }
            return Some(split_params(params));
        }
        let d = nest_delta(u, k);
        depth = depth + d;
        k = k + 1;
    }
    proof {
        assert(close_from(u@, k as int) is None);
        assert(starts_func(t@));
    }
    None
}

impl MirLowerer {
    /// Parameter types a closure argument at position `i` should take, read
    /// off the callee's declared `func(...)` parameter. Empty when the callee
    /// is unknown or that parameter isn't a function type.
    pub fn expected_closure_param_tys(callee_params: &Vec<Option<String>>, i: usize) -> (r: Vec<String>)
        requires
            forall|k: int| 0 <= k < callee_params@.len() ==> (#[trigger] callee_params@[k] matches Some(p) ==> p@.len()
                <= i32::MAX),
        ensures
            string_views(r@) == if i < callee_params@.len() {
                match callee_params@[i as int] {
                    Some(p) => match fn_type_params_spec(p@) {
                        Some(ps) => ps,
                        None => Seq::empty(),
                    },
                    None => Seq::empty(),
                }
            } else {
                Seq::<Seq<char>>::empty()
            },
    {
        if i < callee_params.len() {
            match &callee_params[i] {
                Some(p) => {
                    proof {
                        assert(callee_params@[i as int] matches Some(q) ==> q@.len() <= i32::MAX);
                    }
                    match fn_type_param_strs(p.as_str()) {
                        Some(v) => v,
                        None => {
                            let e: Vec<String> = Vec::new();
                            proof {
                                assert(string_views(e@) =~= Seq::<Seq<char>>::empty());
                            }
                            e
                        },
                    }
                },
                None => {
                    let e: Vec<String> = Vec::new();
                    proof {
                        assert(string_views(e@) =~= Seq::<Seq<char>>::empty());
                    }
                    e
                },
            }
        } else {
            let e: Vec<String> = Vec::new();
            proof {
                assert(string_views(e@) =~= Seq::<Seq<char>>::empty());
            }
            e
        }
    }

    /// The parameter types a collection method's closure takes, by the
    /// element type recorded for the receiver's tracking key `key` (when the
    /// receiver has one): that element type's name, once per element the
    /// method hands its closure. Empty for a method that hands none, a
    /// receiver without a key or a recorded element type, or an element
    /// type without a name.
    pub fn elem_closure_param_tys(&self, key: Option<&str>, method: &str) -> (r: Vec<String>)
        ensures
            string_views(r@) == match (crate::expr::elem_closure_arity_spec(method@), key) {
                (Some(arity), Some(k)) => match crate::expr::tracked_elem_spec(
                    self.meta@,
                    self.ctx.shared_elem_types@,
                    k@,
                ) {
                    Some(ty) => match crate::expr::mir_type_name_spec(self.ctx, ty) {
                        Some(name) => Seq::new(arity as nat, |i: int| name),
                        None => Seq::empty(),
                    },
                    None => Seq::empty(),
                },
                _ => Seq::<Seq<char>>::empty(),
            },
    {
        let mut out: Vec<String> = Vec::new();
        proof {
            assert(string_views(out@) =~= Seq::<Seq<char>>::empty());
        }
        let arity = match Self::elem_closure_arity(method) {
            Some(a) => a,
            None => {
                return out;
            },
        };
        let k = match key {
            Some(k) => k,
            None => {
                return out;
            },
        };
        let elem = match self.tracked_elem_for_key(k) {
            Some(t) => t,
            None => {
                return out;
            },
        };
        let name = match self.mir_type_name(&elem) {
            Some(n) => n,
            None => {
                return out;
            },
        };
        let mut i: usize = 0;
        while i < arity
            invariant
                i <= arity,
                string_views(out@) == Seq::new(i as nat, |j: int| name@),
            decreases arity - i,
        {
            let ghost before = out@;
            let copy = String::from_str(name.as_str());
            out.push(copy);
            proof {
                assert(string_views(before).len() == before.len());
                assert(before.len() == i);
                assert(out@ == before.push(copy));
                assert(copy@ == name@);
                assert forall|j: int| 0 <= j < i + 1 implies #[trigger] string_views(out@)[j] == name@ by {
                    if j < i {
                        assert(out@[j] == before[j]);
                        assert(Seq::new(i as nat, |k: int| name@)[j] == name@);
                        assert(string_views(before)[j] == before[j]@);
                    }
                }
                assert(string_views(out@) =~= Seq::new((i + 1) as nat, |j: int| name@));
            }
            i = i + 1;
        }
        out
    }
}

} // verus!
