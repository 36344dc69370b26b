//! The launcher's command lines: a command is written as words separated by single
//! spaces, the first word naming the program.

use vstd::prelude::*;

verus! {

/// The pieces of `s` between its spaces, as `str::split(" ")` cuts them: every space
/// ends a piece, so adjacent spaces give empty pieces, and there is always at least
/// one piece.
pub open spec fn split_on_spaces(s: Seq<char>) -> Seq<Seq<char>>
    decreases s.len(),
{
    if s.len() == 0 {
        seq![Seq::empty()]
    } else {
        let init = split_on_spaces(s.drop_last());
        if s.last() == ' ' {
            init.push(Seq::empty())
        } else {
            init.update(init.len() - 1, init.last().push(s.last()))
        }
    }
}

/// `split_on_spaces` always gives at least one piece.
pub proof fn lemma_split_not_empty(s: Seq<char>)
    ensures
        split_on_spaces(s).len() >= 1,
    decreases s.len(),
{
    if s.len() > 0 {
        lemma_split_not_empty(s.drop_last());
    }
}

/// The words of a command line, cut at every single space; the first one names the
/// program and the others are its arguments.
pub fn split_command(line: &str) -> (words: Vec<String>)
    ensures
        words@.map_values(|w: String| w@) == split_on_spaces(line@),
        words@.len() >= 1,
        join_with_spaces(words@.map_values(|w: String| w@)) == line@,
        forall|i: int, j: int|
            0 <= i < words@.len() && 0 <= j < words@[i]@.len() ==> #[trigger] words@[i]@[j]
                != ' ',
{
    proof {
        lemma_split_only_at_spaces(line@);
    }
    let n = line.unicode_len();
    let mut words: Vec<String> = Vec::new();
    let mut start: usize = 0;
    let mut i: usize = 0;
    proof {
        assert(line@.take(0) =~= Seq::<char>::empty());
        assert(words@.map_values(|w: String| w@).push(line@.subrange(0, 0)) =~= split_on_spaces(
            line@.take(0),
        ));
    }
    while i < n
        invariant
            n == line@.len(),
            start <= i <= n,
            words@.map_values(|w: String| w@).push(line@.subrange(start as int, i as int))
                == split_on_spaces(line@.take(i as int)),
        decreases n - i,
    {
        let c = line.get_char(i);
        let ghost before = split_on_spaces(line@.take(i as int));
        proof {
            assert(line@.take(i + 1).drop_last() =~= line@.take(i as int));
            assert(line@.take(i + 1).last() == c);
        }
        if c == ' ' {
            let word = line.substring_char(start, i).to_owned();
            words.push(word);
            start = i + 1;
            proof {
                assert(words@.map_values(|w: String| w@) =~= before);
                assert(line@.subrange(start as int, i + 1) =~= Seq::<char>::empty());
            }
        } else {
            proof {
                assert(line@.subrange(start as int, i + 1) =~= line@.subrange(
                    start as int,
                    i as int,
                ).push(c));
                assert(words@.map_values(|w: String| w@).push(line@.subrange(start as int, i + 1))
                    =~= before.update(before.len() - 1, before.last().push(c)));
            }
        }
        i = i + 1;
    }
    let word = line.substring_char(start, n).to_owned();
    words.push(word);
    proof {
        assert(line@.take(n as int) =~= line@);
        assert(words@.map_values(|w: String| w@) =~= split_on_spaces(line@));
        assert forall|i: int, j: int|
            0 <= i < words@.len() && 0 <= j < words@[i]@.len() implies #[trigger] words@[i]@[j]
            != ' ' by {
            assert(words@.map_values(|w: String| w@)[i] == words@[i]@);
        }
    }
    words
}

/// The words joined back together with a single space between each two.
pub open spec fn join_with_spaces(words: Seq<Seq<char>>) -> Seq<char>
    decreases words.len(),
{
    if words.len() == 0 {
        Seq::empty()
    } else if words.len() == 1 {
        words[0]
    } else {
        join_with_spaces(words.drop_last()) + seq![' '] + words.last()
    }
}

/// Only a space cuts a command line: no word holds a space, and joining the words
/// with single spaces gives the line back exactly.
pub proof fn lemma_split_only_at_spaces(s: Seq<char>)
    ensures
        split_on_spaces(s).len() >= 1,
        join_with_spaces(split_on_spaces(s)) == s,
        forall|i: int, j: int|
            0 <= i < split_on_spaces(s).len() && 0 <= j < split_on_spaces(s)[i].len()
                ==> #[trigger] split_on_spaces(s)[i][j] != ' ',
    decreases s.len(),
{
    if s.len() == 0 {
        assert(join_with_spaces(split_on_spaces(s)) =~= s);
    } else {
        let init = split_on_spaces(s.drop_last());
        lemma_split_only_at_spaces(s.drop_last());
        let c = s.last();
        if c == ' ' {
            let after = init.push(Seq::empty());
            assert(after.drop_last() =~= init);
            assert(join_with_spaces(after) =~= s);
            assert forall|i: int, j: int|
                0 <= i < after.len() && 0 <= j < after[i].len() implies #[trigger] after[i][j]
                != ' ' by {
                assert(after[i] == init[i]);
            }
        } else {
            let n = init.len();
            let w = init.last().push(c);
            let after = init.update(n - 1, w);
            if n == 1 {
                assert(join_with_spaces(after) =~= s);
            } else {
                assert(after.drop_last() =~= init.drop_last());
                assert(join_with_spaces(init) == join_with_spaces(init.drop_last()) + seq![' ']
                    + init.last());
                assert(join_with_spaces(after) == join_with_spaces(init.drop_last()) + seq![' ']
                    + w);
                assert(join_with_spaces(after) =~= s.drop_last().push(c));
                assert(s.drop_last().push(c) =~= s);
            }
            assert forall|i: int, j: int|
                0 <= i < after.len() && 0 <= j < after[i].len() implies #[trigger] after[i][j]
                != ' ' by {
                if i == n - 1 {
                    if j < w.len() - 1 {
                        assert(w[j] == init[n - 1][j]);
                    }
                } else {
                    assert(after[i] == init[i]);
                }
            }
        }
    }
}

} // verus!
