//! The values that the enumerated arguments of the command line take.

use vstd::prelude::*;
use vstd::string::StrSliceExecFns;

verus! {

/// Available RPC methods.
#[derive(Debug, Copy, Clone, PartialEq, Eq, Hash, Structural)]
pub enum RpcMethods {
    /// Expose every RPC method only when RPC is listening on `localhost`,
    /// otherwise serve only safe RPC methods.
    Auto,
    /// Allow only a safe subset of RPC methods.
    Safe,
    /// Expose every RPC method (even potentially unsafe ones).
    Unsafe,
}

/// CORS setting: the origins that may access the RPC servers.
#[derive(Debug, Clone, PartialEq, Eq)]
pub enum Cors {
    /// All hosts allowed.
    All,
    /// Only hosts on the list are allowed.
    List(Vec<String>),
}

/// A list of origins as plain values; `None` stands for every origin.
pub type Origins = Option<Seq<Seq<char>>>;

impl Cors {
    /// The origins that this setting allows.
    pub open spec fn origins(self) -> Origins {
        match self {
            Cors::All => None,
            Cors::List(list) => Some(list.deep_view()),
        }
    }
}

/// The parts of `text` between its commas, in order. A text without a
/// comma is one part, and so is the empty text.
pub open spec fn split_at_commas(text: Seq<char>) -> Seq<Seq<char>>
    decreases text.len(),
{
    if text.len() == 0 {
        seq![Seq::<char>::empty()]
    } else {
        let before = split_at_commas(text.drop_last());
        if text.last() == ',' {
            before.push(Seq::<char>::empty())
        } else {
            before.update(before.len() - 1, before.last().push(text.last()))
        }
    }
}

/// Whether one of the parts stands for every origin: `all` or `*`.
pub open spec fn names_all(parts: Seq<Seq<char>>) -> bool {
    exists|i: int| 0 <= i < parts.len() && (#[trigger] parts[i] == "all"@ || parts[i] == "*"@)
}

/// The origins that a comma-separated list names: every origin where one
/// of its parts is `all` or `*`, else its parts.
pub open spec fn spec_parse_cors(text: Seq<char>) -> Origins {
    if names_all(split_at_commas(text)) {
        None
    } else {
        Some(split_at_commas(text))
    }
}

/// The parts in order with a comma between each two.
pub open spec fn join_with_commas(parts: Seq<Seq<char>>) -> Seq<char>
    decreases parts.len(),
{
    if parts.len() == 0 {
        Seq::<char>::empty()
    } else if parts.len() == 1 {
        parts[0]
    } else {
        join_with_commas(parts.drop_last()) + seq![','] + parts.last()
    }
}

/// Whether none of the parts holds a comma.
pub open spec fn free_of_commas(parts: Seq<Seq<char>>) -> bool {
    forall|i: int, j: int|
        0 <= i < parts.len() && 0 <= j < parts[i].len() ==> #[trigger] parts[i][j] != ','
}

/// The parts of a split text are never none, hold no comma, and give the
/// text back when they are joined by commas.
pub proof fn lemma_split_at_commas(text: Seq<char>)
    ensures
        split_at_commas(text).len() >= 1,
        free_of_commas(split_at_commas(text)),
        join_with_commas(split_at_commas(text)) == text,
    decreases text.len(),
{
    if text.len() == 0 {
        assert(join_with_commas(seq![Seq::<char>::empty()]) =~= Seq::<char>::empty());
    } else {
        let shorter = text.drop_last();
        lemma_split_at_commas(shorter);
        let before = split_at_commas(shorter);
        if text.last() == ',' {
            let parts = before.push(Seq::<char>::empty());
            assert(parts.drop_last() =~= before);
            assert(join_with_commas(parts) =~= join_with_commas(before) + seq![','] + parts.last());
            assert(join_with_commas(parts) =~= text);
        } else {
            let grown = before.last().push(text.last());
            let parts = before.update(before.len() - 1, grown);
            assert(parts.drop_last() =~= before.drop_last());
            assert(text =~= shorter.push(text.last()));
            if before.len() == 1 {
                assert(join_with_commas(parts) =~= grown);
                assert(join_with_commas(before) =~= before.last());
            } else {
                let head = join_with_commas(before.drop_last()) + seq![','];
                assert(join_with_commas(parts) =~= head + grown);
                assert(join_with_commas(before) =~= head + before.last());
                assert(head + grown =~= (head + before.last()).push(text.last()));
            }
            assert(join_with_commas(parts) =~= join_with_commas(before).push(text.last()));
        }
    }
}

/// The split of a text is the only way to cut it at all of its commas: any
/// parts that hold no comma and give the text back when they are joined by
/// commas are the parts of the split.
pub proof fn lemma_split_at_commas_is_unique(text: Seq<char>, parts: Seq<Seq<char>>)
    requires
        parts.len() >= 1,
        free_of_commas(parts),
        join_with_commas(parts) == text,
    ensures
        parts == split_at_commas(text),
    decreases text.len(),
{
    let last = parts.last();
    let front = parts.drop_last();
    if parts.len() > 1 {
        assert(text =~= join_with_commas(front) + seq![','] + last);
    } else {
        assert(text =~= last);
    }
    if text.len() == 0 {
        assert(parts.len() == 1) by {
            if parts.len() > 1 {
                assert((join_with_commas(front) + seq![','] + last).len() > 0);
            }
        }
        assert(last =~= Seq::<char>::empty());
        assert(parts =~= seq![Seq::<char>::empty()]);
    } else if text.last() == ',' {
        assert(last.len() == 0) by {
            if last.len() > 0 {
                assert(text.last() == last.last());
                assert(parts[parts.len() - 1][last.len() - 1] != ',');
            }
        }
        assert(parts.len() > 1);
        assert(free_of_commas(front)) by {
            assert forall|i: int, j: int|
                0 <= i < front.len() && 0 <= j < front[i].len() implies #[trigger] front[i][j]
                != ',' by {
                assert(front[i][j] == parts[i][j]);
            }
        }
        assert(text.drop_last() =~= join_with_commas(front));
        lemma_split_at_commas_is_unique(text.drop_last(), front);
        assert(last =~= Seq::<char>::empty());
        assert(parts =~= front.push(Seq::<char>::empty()));
    } else {
        assert(last.len() > 0) by {
            if last.len() == 0 {
                if parts.len() > 1 {
                    assert(text.last() == ',');
                }
            }
        }
        assert(text.last() == last.last());
        let shorter = parts.update(parts.len() - 1, last.drop_last());
        assert(free_of_commas(shorter)) by {
            assert forall|i: int, j: int|
                0 <= i < shorter.len() && 0 <= j < shorter[i].len() implies #[trigger] shorter[i][j]
                != ',' by {
                assert(shorter[i][j] == parts[i][j]);
            }
        }
        assert(shorter.drop_last() =~= front);
        if parts.len() > 1 {
            assert(join_with_commas(shorter) =~= join_with_commas(front) + seq![',']
                + last.drop_last());
        } else {
            assert(join_with_commas(shorter) =~= last.drop_last());
        }
        assert(join_with_commas(shorter) =~= text.drop_last());
        lemma_split_at_commas_is_unique(text.drop_last(), shorter);
        assert(last =~= last.drop_last().push(text.last()));
        assert(parts =~= shorter.update(shorter.len() - 1, shorter.last().push(text.last())));
    }
}

/// Splits a text at its commas.
pub fn split_origins(text: &str) -> (parts: Vec<String>)
    ensures
        parts.deep_view() == split_at_commas(text@),
{
    let length = text.unicode_len();
    let mut parts: Vec<String> = Vec::new();
    let mut start: usize = 0;
    let mut at: usize = 0;
    proof {
        assert(text@.subrange(0, 0) =~= Seq::<char>::empty());
        assert(parts.deep_view().push(text@.subrange(0, 0)) =~= split_at_commas(
            text@.subrange(0, 0),
        ));
    }
    while at < length
        invariant
            length == text@.len(),
            start <= at <= length,
            split_at_commas(text@.subrange(0, at as int)) == parts.deep_view().push(
                text@.subrange(start as int, at as int),
            ),
        decreases length - at,
    {
        let c = text.get_char(at);
        proof {
            let seen = text@.subrange(0, at as int);
            let next = text@.subrange(0, at + 1);
            assert(next.drop_last() =~= seen);
            assert(next.last() == c);
        }
        if c == ',' {
            let part = text.substring_char(start, at).to_owned();
            let ghost done = parts.deep_view();
            parts.push(part);
            start = at + 1;
            proof {
                assert(parts.deep_view() =~= done.push(part@));
                assert(text@.subrange(start as int, at + 1) =~= Seq::<char>::empty());
            }
        } else {
            proof {
                let current = text@.subrange(start as int, at as int);
                assert(text@.subrange(start as int, at + 1) =~= current.push(c));
                let before = parts.deep_view().push(current);
                assert(before.update(before.len() - 1, before.last().push(c))
                    =~= parts.deep_view().push(current.push(c)));
            }
        }
        at = at + 1;
    }
    let part = text.substring_char(start, length).to_owned();
    let ghost done = parts.deep_view();
    parts.push(part);
    proof {
        assert(parts.deep_view() =~= done.push(part@));
        assert(text@.subrange(0, length as int) =~= text@);
    }
    parts
}

/// Whether one of the parts stands for every origin: `all` or `*`.
pub fn parts_name_all(parts: &Vec<String>) -> (yes: bool)
    ensures
        yes == names_all(parts.deep_view()),
{
    let all = "all".to_owned();
    let star = "*".to_owned();
    let mut at: usize = 0;
    while at < parts.len()
        invariant
            at <= parts.len(),
            all@ == "all"@,
            star@ == "*"@,
            forall|i: int| 0 <= i < at ==> parts[i]@ != "all"@ && parts[i]@ != "*"@,
        decreases parts.len() - at,
    {
        if parts[at] == all || parts[at] == star {
            assert(parts.deep_view()[at as int] == parts[at as int]@);
            return true;
        }
        at = at + 1;
    }
    assert forall|i: int| 0 <= i < parts.deep_view().len() implies !(#[trigger] parts.deep_view()[i]
        == "all"@ || parts.deep_view()[i] == "*"@) by {
        assert(parts.deep_view()[i] == parts[i]@);
    }
    false
}

/// Reads the allowed origins from a comma-separated list, in which `all`
/// or `*` stands for every origin.
pub fn parse_cors(text: &str) -> (cors: Cors)
    ensures
        cors.origins() == spec_parse_cors(text@),
{
    let parts = split_origins(text);
    if parts_name_all(&parts) {
        Cors::All
    } else {
        Cors::List(parts)
    }
}

} // verus!
