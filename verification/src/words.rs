//! Command lines as space-separated words: joining words into a line and
//! splitting a line back into its pieces.

use vstd::prelude::*;
use vstd::string::*;

verus! {

/// The texts of a vector of strings, in order.
pub open spec fn texts(v: Seq<String>) -> Seq<Seq<char>> {
    Seq::new(v.len(), |i: int| v[i]@)
}

/// Whether `word` holds no space.
pub open spec fn space_free(word: Seq<char>) -> bool {
    forall|i: int| 0 <= i < word.len() ==> word[i] != ' '
}

/// Whether none of `words` holds a space.
pub open spec fn all_space_free(words: Seq<Seq<char>>) -> bool {
    forall|k: int| 0 <= k < words.len() ==> space_free(#[trigger] words[k])
}

/// The pieces of `line` between its spaces, from left to right. A line
/// without a space is one piece; two spaces in a row enclose an empty piece.
pub open spec fn split_spaces(line: Seq<char>) -> Seq<Seq<char>>
    decreases line.len(),
{
    if line.len() == 0 {
        seq![Seq::<char>::empty()]
    } else {
        let before = split_spaces(line.drop_last());
        if line.last() == ' ' {
            before.push(Seq::<char>::empty())
        } else {
            before.drop_last().push(before.last().push(line.last()))
        }
    }
}

/// The words written one after the other with a single space between
/// neighbours.
pub open spec fn join_spaces(words: Seq<Seq<char>>) -> Seq<char>
    decreases words.len(),
{
    if words.len() == 0 {
        Seq::<char>::empty()
    } else if words.len() == 1 {
        words[0]
    } else {
        join_spaces(words.drop_last()) + seq![' '] + words.last()
    }
}

/// Splitting always yields at least one piece.
pub proof fn lemma_split_nonempty(line: Seq<char>)
    ensures
        split_spaces(line).len() >= 1,
    decreases line.len(),
{
    if line.len() > 0 {
        lemma_split_nonempty(line.drop_last());
    }
}

/// No piece of a split line holds a space.
pub proof fn lemma_split_space_free(line: Seq<char>)
    ensures
        all_space_free(split_spaces(line)),
    decreases line.len(),
{
    if line.len() > 0 {
        lemma_split_nonempty(line.drop_last());
        lemma_split_space_free(line.drop_last());
        let before = split_spaces(line.drop_last());
        if line.last() != ' ' {
            let grown = before.last().push(line.last());
            assert(space_free(before.last()));
            assert(space_free(grown));
            assert forall|k: int| 0 <= k < split_spaces(line).len() implies space_free(
                #[trigger] split_spaces(line)[k],
            ) by {
                if k < before.len() - 1 {
                    assert(split_spaces(line)[k] == before[k]);
                }
            }
        } else {
            assert forall|k: int| 0 <= k < split_spaces(line).len() implies space_free(
                #[trigger] split_spaces(line)[k],
            ) by {
                if k < before.len() {
                    assert(split_spaces(line)[k] == before[k]);
                }
            }
        }
    }
}

/// Joining the pieces of a line gives the line back: splitting loses
/// nothing.
pub proof fn lemma_join_split(line: Seq<char>)
    ensures
        join_spaces(split_spaces(line)) == line,
    decreases line.len(),
{
    if line.len() > 0 {
        let rest = line.drop_last();
        lemma_split_nonempty(rest);
        lemma_join_split(rest);
        let before = split_spaces(rest);
        if line.last() == ' ' {
            let after = before.push(Seq::<char>::empty());
            assert(after.drop_last() =~= before);
            assert(join_spaces(after) =~= rest + seq![' ']);
            assert(rest + seq![' '] =~= line);
        } else {
            let grown = before.last().push(line.last());
            let after = before.drop_last().push(grown);
            assert(after.drop_last() =~= before.drop_last());
            if before.len() == 1 {
                assert(join_spaces(before) == before[0]);
                assert(join_spaces(after) == grown);
                assert(grown =~= line);
            } else {
                assert(join_spaces(after) =~= join_spaces(before.drop_last()) + seq![' '] + grown);
                assert(join_spaces(before) =~= join_spaces(before.drop_last()) + seq![' ']
                    + before.last());
                assert(join_spaces(after) =~= join_spaces(before).push(line.last()));
                assert(rest.push(line.last()) =~= line);
            }
        }
    }
}

/// Appending a space-free word to a line extends the line's last piece by
/// that word and leaves the other pieces as they were.
pub proof fn lemma_split_append_word(line: Seq<char>, word: Seq<char>)
    requires
        space_free(word),
    ensures
        split_spaces(line + word) == split_spaces(line).drop_last().push(
            split_spaces(line).last() + word,
        ),
    decreases word.len(),
{
    lemma_split_nonempty(line);
    let pieces = split_spaces(line);
    if word.len() == 0 {
        assert(line + word =~= line);
        assert(pieces.last() + word =~= pieces.last());
        assert(pieces.drop_last().push(pieces.last()) =~= pieces);
    } else {
        let shorter = word.drop_last();
        lemma_split_append_word(line, shorter);
        assert((line + word).drop_last() =~= line + shorter);
        assert((line + word).last() == word.last());
        let before = split_spaces(line + shorter);
        assert(before.drop_last() =~= pieces.drop_last());
        assert(before.last().push(word.last()) =~= pieces.last() + word);
    }
}

/// Splitting a line that was joined from space-free words gives exactly
/// those words back.
pub proof fn lemma_split_join(words: Seq<Seq<char>>)
    requires
        words.len() >= 1,
        all_space_free(words),
    ensures
        split_spaces(join_spaces(words)) == words,
    decreases words.len(),
{
    let none = Seq::<char>::empty();
    if words.len() == 1 {
        lemma_split_append_word(none, words[0]);
        assert(none + words[0] =~= words[0]);
        assert(split_spaces(none) =~= seq![none]);
        assert(split_spaces(none).drop_last().push(none + words[0]) =~= words);
    } else {
        let init = words.drop_last();
        assert(all_space_free(init)) by {
            assert forall|k: int| 0 <= k < init.len() implies space_free(#[trigger] init[k]) by {
                assert(init[k] == words[k]);
            }
        }
        lemma_split_join(init);
        let head = join_spaces(init) + seq![' '];
        assert(head.drop_last() =~= join_spaces(init));
        assert(split_spaces(head) == init.push(none));
        lemma_split_append_word(head, words.last());
        assert(init.push(none).drop_last() =~= init);
        assert(none + words.last() =~= words.last());
        assert(init.push(words.last()) =~= words);
    }
}

/// Splits `line` at every space.
pub fn split_line(line: &str) -> (pieces: Vec<String>)
    ensures
        texts(pieces@) == split_spaces(line@),
{
    let n: usize = line.unicode_len();
    let mut pieces: Vec<String> = Vec::new();
    let mut start: usize = 0;
    let mut i: usize = 0;
    proof {
        assert(line@.subrange(0, 0) =~= Seq::<char>::empty());
        assert(texts(pieces@).push(line@.subrange(0, 0)) =~= split_spaces(line@.take(0)));
    }
    while i < n
        invariant
            n == line@.len(),
            start <= i <= n,
            texts(pieces@).push(line@.subrange(start as int, i as int)) == split_spaces(
                line@.take(i as int),
            ),
        decreases n - i,
    {
        let c: char = line.get_char(i);
        let ghost before = split_spaces(line@.take(i as int));
        let ghost had = texts(pieces@);
        proof {
            assert(line@.take(i + 1).drop_last() =~= line@.take(i as int));
            assert(line@.take(i + 1).last() == c);
            assert(before.drop_last() =~= had);
            assert(before.last() == line@.subrange(start as int, i as int));
        }
        if c == ' ' {
            pieces.push(String::from_str(line.substring_char(start, i)));
            start = i + 1;
            proof {
                assert(texts(pieces@) =~= before);
                assert(line@.subrange(start as int, i + 1) =~= Seq::<char>::empty());
            }
        } else {
            proof {
                assert(line@.subrange(start as int, i as int).push(c) =~= line@.subrange(
                    start as int,
                    i + 1,
                ));
            }
        }
        i += 1;
    }
    pieces.push(String::from_str(line.substring_char(start, n)));
    proof {
        assert(line@.take(n as int) =~= line@);
        assert(texts(pieces@) =~= split_spaces(line@));
    }
    pieces
}

/// Writes `words` one after the other with a single space between
/// neighbours.
pub fn join_words(words: &Vec<String>) -> (line: String)
    ensures
        line@ == join_spaces(texts(words@)),
{
    let mut line: String = String::new();
    let mut i: usize = 0;
    proof {
        assert(texts(words@).take(0) =~= Seq::<Seq<char>>::empty());
    }
    while i < words.len()
        invariant
            i <= words.len(),
            line@ == join_spaces(texts(words@).take(i as int)),
        decreases words.len() - i,
    {
        let ghost done = texts(words@).take(i as int);
        let ghost next = texts(words@).take(i + 1);
        proof {
            assert(next.drop_last() =~= done);
            assert(next.last() == words@[i as int]@);
        }
        if i > 0 {
            line.append(" ");
            proof {
                reveal_strlit(" ");
                assert(" "@ =~= seq![' ']);
            }
        } else {
            proof {
                assert(line@ =~= Seq::<char>::empty());
                assert(line@ + words@[i as int]@ =~= words@[i as int]@);
            }
        }
        line.append(words[i].as_str());
        i += 1;
    }
    proof {
        assert(texts(words@).take(words.len() as int) =~= texts(words@));
    }
    line
}

} // verus!
