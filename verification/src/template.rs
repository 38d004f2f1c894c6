//! The template of an entry and how it is rendered.

use vstd::prelude::*;
use vstd::string::*;

verus! {

/// Whether the two characters of `t` from `i` on are the placeholder `{}`.
pub open spec fn placeholder_at(t: Seq<char>, i: int) -> bool {
    0 <= i && i + 1 < t.len() && t[i] == '{' && t[i + 1] == '}'
}

/// The template `t` with `value` in place of every placeholder. Placeholders
/// are found from the left and do not overlap; all other characters are kept.
pub open spec fn render(t: Seq<char>, value: Seq<char>) -> Seq<char>
    decreases t.len(),
{
    if t.len() == 0 {
        Seq::empty()
    } else if placeholder_at(t, 0) {
        value + render(t.skip(2), value)
    } else {
        seq![t[0]] + render(t.skip(1), value)
    }
}

/// How many placeholders `render` replaces in `t`.
pub open spec fn placeholder_count(t: Seq<char>) -> nat
    decreases t.len(),
{
    if t.len() == 0 {
        0
    } else if placeholder_at(t, 0) {
        1 + placeholder_count(t.skip(2))
    } else {
        placeholder_count(t.skip(1))
    }
}

/// Where `t` has no placeholder at `p`, rendering from `p` keeps that
/// character and goes on behind it.
pub proof fn lemma_render_keeps(t: Seq<char>, value: Seq<char>, p: int)
    requires
        0 <= p < t.len(),
        !placeholder_at(t, p),
    ensures
        render(t.skip(p), value) == seq![t[p]] + render(t.skip(p + 1), value),
        placeholder_count(t.skip(p)) == placeholder_count(t.skip(p + 1)),
{
    assert(t.skip(p).skip(1) == t.skip(p + 1));
}

/// Where `t` has a placeholder at `p`, rendering from `p` writes the value
/// and goes on behind the placeholder.
pub proof fn lemma_render_replaces(t: Seq<char>, value: Seq<char>, p: int)
    requires
        placeholder_at(t, p),
    ensures
        render(t.skip(p), value) == value + render(t.skip(p + 2), value),
        placeholder_count(t.skip(p)) == 1 + placeholder_count(t.skip(p + 2)),
{
    assert(t.skip(p).skip(2) == t.skip(p + 2));
}

/// A text without an opening brace holds no placeholder and renders as
/// itself.
pub proof fn lemma_plain_text(t: Seq<char>)
    requires
        forall|i: int| 0 <= i < t.len() ==> t[i] != '{',
    ensures
        placeholder_count(t) == 0,
        forall|value: Seq<char>| #[trigger] render(t, value) == t,
    decreases t.len(),
{
    if t.len() > 0 {
        let rest = t.skip(1);
        assert forall|i: int| 0 <= i < rest.len() implies rest[i] != '{' by {
            assert(rest[i] == t[i + 1]);
        }
        lemma_plain_text(rest);
        assert forall|value: Seq<char>| #[trigger] render(t, value) == t by {
            assert(render(rest, value) == rest);
            assert(seq![t[0]] + rest == t);
        }
    }
}

/// Renders `template`: every `{}` in it becomes `value`.
pub fn render_template(template: &str, value: &str) -> (r: String)
    ensures
        r@ == render(template@, value@),
{
    let n = template.unicode_len();
    let mut out = String::new();
    // `start` is where the text not yet copied begins, `k` counts the
    // characters seen, and `pending` says that the last one seen was a `{`
    // that may open a placeholder.
    let mut start: usize = 0;
    let mut k: usize = 0;
    let mut pending = false;
    assert(template@.skip(0) == template@);
    for c in it: template.chars()
        invariant
            it.seq() == template@,
            n == template@.len(),
            k == it.index(),
            k <= n,
            pending ==> start < k && template@[k - 1] == '{',
            !pending ==> start <= k,
            render(template@, value@) == out@ + template@.subrange(
                start as int,
                if pending { k - 1 } else { k as int },
            ) + render(template@.skip(if pending { k - 1 } else { k as int }), value@),
    {
        let ghost t = template@;
        let ghost v = value@;
        let ghost p: int = if pending { k - 1 } else { k as int };
        assert(c == t[k as int]);
        if pending && c == '}' {
            proof {
                lemma_render_replaces(t, v, p);
                assert(out@ + t.subrange(start as int, p) + (v + render(t.skip(p + 2), v))
                    == out@ + t.subrange(start as int, p) + v + t.subrange(k + 1, k + 1) + render(
                    t.skip(k + 1),
                    v,
                ));
            }
            out.append(template.substring_char(start, k - 1));
            out.append(value);
            start = k + 1;
            pending = false;
        } else {
            proof {
                if pending {
                    lemma_render_keeps(t, v, p);
                    assert(t.subrange(start as int, p) + seq![t[p]] == t.subrange(
                        start as int,
                        p + 1,
                    ));
                    assert(out@ + t.subrange(start as int, p) + (seq![t[p]] + render(
                        t.skip(p + 1),
                        v,
                    )) == out@ + t.subrange(start as int, p + 1) + render(t.skip(p + 1), v));
                }
                if c != '{' {
                    lemma_render_keeps(t, v, k as int);
                    assert(t.subrange(start as int, k as int) + seq![t[k as int]] == t.subrange(
                        start as int,
                        k + 1,
                    ));
                    assert(out@ + t.subrange(start as int, k as int) + (seq![t[k as int]] + render(
                        t.skip(k + 1),
                        v,
                    )) == out@ + t.subrange(start as int, k + 1) + render(t.skip(k + 1), v));
                }
            }
            pending = c == '{';
        }
        k += 1;
    }
    proof {
        let t = template@;
        let v = value@;
        if pending {
            lemma_render_keeps(t, v, n - 1);
            assert(t.subrange(start as int, n - 1) + seq![t[n - 1]] == t.subrange(
                start as int,
                n as int,
            ));
            assert(out@ + t.subrange(start as int, n - 1) + (seq![t[n - 1]] + render(
                t.skip(n as int),
                v,
            )) == out@ + t.subrange(start as int, n as int) + render(t.skip(n as int), v));
        }
        assert(render(t.skip(n as int), v) == Seq::<char>::empty());
        assert(out@ + t.subrange(start as int, n as int) + Seq::<char>::empty() == out@
            + t.subrange(start as int, n as int));
    }
    out.append(template.substring_char(start, n));
    out
}

/// Counts the placeholders of `template`, as `render_template` finds them.
/// A template is meant to hold one; with more, each is replaced.
pub fn count_placeholders(template: &str) -> (r: usize)
    ensures
        r == placeholder_count(template@),
{
    let n = template.unicode_len();
    let mut count: usize = 0;
    let mut k: usize = 0;
    let mut pending = false;
    assert(template@.skip(0) == template@);
    for c in it: template.chars()
        invariant
            it.seq() == template@,
            n == template@.len(),
            k == it.index(),
            k <= n,
            pending ==> 0 < k && template@[k - 1] == '{',
            count <= (if pending { k - 1 } else { k as int }),
            placeholder_count(template@) == count + placeholder_count(
                template@.skip(if pending { k - 1 } else { k as int }),
            ),
    {
        let ghost t = template@;
        assert(c == t[k as int]);
        if pending && c == '}' {
            proof {
                lemma_render_replaces(t, Seq::empty(), k - 1);
            }
            count += 1;
            pending = false;
        } else {
            proof {
                if pending {
                    lemma_render_keeps(t, Seq::empty(), k - 1);
                }
                if c != '{' {
                    lemma_render_keeps(t, Seq::empty(), k as int);
                }
            }
            pending = c == '{';
        }
        k += 1;
    }
    proof {
        if pending {
            lemma_render_keeps(template@, Seq::empty(), n - 1);
        }
    }
    count
}

} // verus!
