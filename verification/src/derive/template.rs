//! Source text with holes.
//!
//! A template is text in which `$a`, `$b` and so on to `$z` stand for the
//! first, second and so on of the arguments. Filling a template puts each
//! argument in place of its holes and copies every other character.

use crate::derive::syntax::texts;
use vstd::prelude::*;
use vstd::string::StrSliceExecFns;
use vstd::string::StringExecFns;

verus! {

/// What stands in place of the hole named by `c`: the argument of that
/// letter, or nothing where `c` is no small letter or there is no such
/// argument.
pub open spec fn hole(c: char, args: Seq<Seq<char>>) -> Seq<char> {
    let index = c as int - 'a' as int;
    if 0 <= index < 26 && index < args.len() {
        args[index]
    } else {
        Seq::empty()
    }
}

/// The template filled from position `i` on.
pub open spec fn filled_from(template: Seq<char>, args: Seq<Seq<char>>, i: int) -> Seq<char>
    decreases template.len() - i,
{
    if i < 0 || i >= template.len() {
        Seq::empty()
    } else if template[i] == '$' && i + 1 < template.len() {
        hole(template[i + 1], args) + filled_from(template, args, i + 2)
    } else {
        seq![template[i]] + filled_from(template, args, i + 1)
    }
}

/// The template with its holes filled.
pub open spec fn filled(template: Seq<char>, args: Seq<Seq<char>>) -> Seq<char> {
    filled_from(template, args, 0)
}

/// Calls `String::push`, which appends one character to the string.
#[verifier::external_body]
pub(crate) fn push_char(s: &mut String, c: char)
    ensures
        final(s)@ == old(s)@.push(c),
{
    s.push(c)
}

/// Fills the holes of a template.
pub fn fill(template: &str, args: &Vec<String>) -> (out: String)
    ensures
        out@ == filled(template@, texts(args@)),
{
    let ghost t = template@;
    let ghost a = texts(args@);
    let n = template.unicode_len();
    let mut out = String::new();
    let mut i: usize = 0;
    assert(out@ + filled_from(t, a, 0) =~= filled(t, a));
    while i < n
        invariant
            i <= n,
            n == t.len(),
            t == template@,
            a == texts(args@),
            out@ + filled_from(t, a, i as int) == filled(t, a),
        decreases n - i,
    {
        let c = template.get_char(i);
        if c == '$' && i + 1 < n {
            let d = template.get_char(i + 1);
            let code = d as u32;
            let ghost rest = filled_from(t, a, i as int + 2);
            let ghost before = out@;
            if 97 <= code && code <= 122 {
                let index = (code - 97) as usize;
                if index < args.len() {
                    out.append(args[index].as_str());
                }
            }
            assert(out@ == before + hole(d, a)) by {
                assert(before + Seq::<char>::empty() =~= before);
            }
            assert((before + hole(d, a)) + rest =~= before + (hole(d, a) + rest));
            i = i + 2;
        } else {
            let ghost rest = filled_from(t, a, i as int + 1);
            let ghost before = out@;
            push_char(&mut out, c);
            assert(before.push(c) + rest =~= before + (seq![c] + rest));
            i = i + 1;
        }
    }
    assert(out@ + Seq::<char>::empty() =~= out@);
    out
}

} // verus!
