//! Whitespace tokenization of a user-supplied argument line.
//!
//! An override argument line is split on runs of ASCII whitespace; empty
//! tokens never arise. The splitter carries an exact character-level
//! contract so that everything built on the token stream (argument
//! vectors, option scanning) is pinned down.

use vstd::prelude::*;

verus! {

/// `c` is an ASCII whitespace character.
pub open spec fn is_space(c: char) -> bool {
    c == ' ' || c == '\t' || c == '\n' || c == '\r'
}

/// Tokens of `cur + s` where `cur` is the partial token read so far.
pub open spec fn spec_tokens_acc(s: Seq<char>, cur: Seq<char>) -> Seq<Seq<char>>
    decreases s.len(),
{
    if s.len() == 0 {
        if cur.len() == 0 {
            Seq::<Seq<char>>::empty()
        } else {
            seq![cur]
        }
    } else if is_space(s[0]) {
        (if cur.len() == 0 {
            Seq::<Seq<char>>::empty()
        } else {
            seq![cur]
        }) + spec_tokens_acc(s.drop_first(), Seq::<char>::empty())
    } else {
        spec_tokens_acc(s.drop_first(), cur.push(s[0]))
    }
}

/// The maximal runs of non-whitespace characters of `s`, in order.
pub open spec fn spec_tokens(s: Seq<char>) -> Seq<Seq<char>> {
    spec_tokens_acc(s, Seq::<char>::empty())
}

/// The views of a vector of strings.
pub open spec fn views_of(v: Seq<String>) -> Seq<Seq<char>> {
    v.map_values(|s: String| s@)
}

fn is_space_exec(c: char) -> (r: bool)
    ensures
        r == is_space(c),
{
    c == ' ' || c == '\t' || c == '\n' || c == '\r'
}

/// Splits `s` into its maximal runs of non-whitespace characters.
pub fn split_ascii_whitespace(s: &str) -> (r: Vec<String>)
    ensures
        views_of(r@) == spec_tokens(s@),
{
    let n = s.unicode_len();
    let mut done: Vec<String> = Vec::new();
    let mut start: usize = 0;
    let mut i: usize = 0;
    proof {
        assert(s@.skip(0) =~= s@);
        assert(s@.subrange(0, 0) =~= Seq::<char>::empty());
    }
    while i < n
        invariant
            n == s@.len(),
            start <= i <= n,
            views_of(done@) + spec_tokens_acc(s@.skip(i as int), s@.subrange(start as int, i as int))
                =~= spec_tokens(s@),
        decreases n - i,
    {
        let ghost rest = s@.skip(i as int);
        let ghost cur = s@.subrange(start as int, i as int);
        let c = s.get_char(i);
        proof {
            assert(rest[0] == s@[i as int]);
            assert(rest.drop_first() =~= s@.skip(i as int + 1));
        }
        if is_space_exec(c) {
            if start < i {
                let tok = s.substring_char(start, i).to_owned();
                proof {
                    assert(spec_tokens_acc(rest, cur) =~= seq![cur] + spec_tokens_acc(
                        s@.skip(i as int + 1),
                        Seq::<char>::empty(),
                    ));
                    assert(views_of(done@.push(tok)) =~= views_of(done@).push(cur));
                    assert(views_of(done@) + seq![cur] =~= views_of(done@).push(cur));
                    assert((views_of(done@) + seq![cur]) + spec_tokens_acc(
                        s@.skip(i as int + 1),
                        Seq::<char>::empty(),
                    ) =~= views_of(done@) + spec_tokens_acc(rest, cur));
                }
                done.push(tok);
            } else {
                proof {
                    assert(cur =~= Seq::<char>::empty());
                    assert(spec_tokens_acc(rest, cur) =~= spec_tokens_acc(
                        s@.skip(i as int + 1),
                        Seq::<char>::empty(),
                    ));
                }
            }
            start = i + 1;
            proof {
                assert(s@.subrange(start as int, i as int + 1) =~= Seq::<char>::empty());
            }
        } else {
            proof {
                assert(cur.push(s@[i as int]) =~= s@.subrange(start as int, i as int + 1));
                assert(spec_tokens_acc(rest, cur) == spec_tokens_acc(
                    s@.skip(i as int + 1),
                    s@.subrange(start as int, i as int + 1),
                ));
            }
        }
        i += 1;
    }
    proof {
        assert(s@.skip(n as int) =~= Seq::<char>::empty());
    }
    if start < n {
        let tok = s.substring_char(start, n).to_owned();
        proof {
            let cur = s@.subrange(start as int, n as int);
            assert(spec_tokens_acc(s@.skip(n as int), cur) =~= seq![cur]);
            assert(views_of(done@.push(tok)) =~= views_of(done@) + seq![cur]);
        }
        done.push(tok);
    } else {
        proof {
            assert(s@.subrange(start as int, n as int) =~= Seq::<char>::empty());
            assert(spec_tokens_acc(s@.skip(n as int), Seq::<char>::empty()) =~= Seq::<
                Seq<char>,
            >::empty());
            assert(views_of(done@) + Seq::<Seq<char>>::empty() =~= views_of(done@));
        }
    }
    done
}

} // verus!
