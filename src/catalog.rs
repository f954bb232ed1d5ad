use vstd::prelude::*;
use vstd::multiset::Multiset;
use crate::conversation::{Conversation, SerializedConversation};

verus! {

broadcast use vstd::seq_lib::group_to_multiset_ensures;

/// Whether `c` is a decimal digit.
pub open spec fn is_digit(c: char) -> bool {
    '0' <= c && c <= '9'
}

/// The number that the decimal digits `s` write.
pub open spec fn digits_value(s: Seq<char>) -> nat
    decreases s.len(),
{
    if s.len() == 0 {
        0
    } else {
        digits_value(s.drop_last()) * 10 + (s.last() as nat - '0' as nat) as nat
    }
}

/// The digits of a file name: what follows one leading `+`, if there is one.
pub open spec fn unsigned_digits(s: Seq<char>) -> Seq<char> {
    if s.len() > 0 && s[0] == '+' {
        s.drop_first()
    } else {
        s
    }
}

/// The conversation id that a file name stands for: a decimal number, with
/// one leading `+` allowed, that fits in a `u64`.
pub open spec fn id_of_name(s: Seq<char>) -> Option<u64> {
    let d = unsigned_digits(s);
    if d.len() > 0 && (forall|i: int| 0 <= i < d.len() ==> is_digit(#[trigger] d[i]))
        && digits_value(d) <= u64::MAX {
        Some(digits_value(d) as u64)
    } else {
        None
    }
}

/// The ids that the names in `names` stand for, in order; the other names
/// are left out.
pub open spec fn ids_of(names: Seq<String>) -> Seq<u64>
    decreases names.len(),
{
    if names.len() == 0 {
        Seq::empty()
    } else {
        ids_of(names.drop_last()) + match id_of_name(names.last()@) {
            Some(id) => seq![id],
            None => Seq::empty(),
        }
    }
}

proof fn lemma_digits_grow(s: Seq<char>, c: char)
    requires
        is_digit(c),
    ensures
        digits_value(s.push(c)) >= digits_value(s),
        digits_value(s.push(c)) == digits_value(s) * 10 + (c as nat - '0' as nat),
{
    assert(s.push(c).drop_last() =~= s);
}

/// The conversation id that a file name stands for, if it stands for one.
pub fn parse_id(name: &str) -> (r: Option<u64>)
    ensures
        r == id_of_name(name@),
{
    let n = name.unicode_len();
    let start: usize = if n > 0 && name.get_char(0) == '+' {
        1
    } else {
        0
    };
    let ghost d = unsigned_digits(name@);
    assert(d =~= name@.subrange(start as int, n as int));
    if start >= n {
        return None;
    }
    let mut value: u64 = 0;
    let mut over = false;
    let mut i: usize = start;
    while i < n
        invariant
            start <= i <= n,
            n == name@.len(),
            d == name@.subrange(start as int, n as int),
            d == unsigned_digits(name@),
            forall|k: int| 0 <= k < i - start ==> is_digit(#[trigger] d[k]),
            over ==> digits_value(d.take(i - start)) > u64::MAX,
            !over ==> value == digits_value(d.take(i - start)),
        decreases n - i,
    {
        let c = name.get_char(i);
        if !('0' <= c && c <= '9') {
            assert(d[i - start] == c);
            assert(!is_digit(d[i - start]));
            return None;
        }
        let digit = (c as u32 - '0' as u32) as u64;
        proof {
            assert(d.take(i - start + 1) =~= d.take(i - start).push(c));
            lemma_digits_grow(d.take(i - start), c);
        }
        if !over {
            if value > (u64::MAX - digit) / 10 {
                over = true;
            } else {
                value = value * 10 + digit;
            }
        }
        i = i + 1;
    }
    proof {
        assert(d.take(n - start) =~= d);
    }
    if over {
        None
    } else {
        Some(value)
    }
}

/// `s` runs from the most recent creation time to the oldest.
pub open spec fn newest_first(s: Seq<SerializedConversation>) -> bool {
    forall|i: int, j: int| 0 <= i < j < s.len() ==> s[i].date_created >= s[j].date_created
}

/// The snapshots that loaded, in order; the others are left out.
pub open spec fn loaded_of(s: Seq<Option<SerializedConversation>>) -> Seq<SerializedConversation>
    decreases s.len(),
{
    if s.len() == 0 {
        Seq::empty()
    } else {
        loaded_of(s.drop_last()) + kept_of(s.last())
    }
}

/// Orders snapshots from the most recent creation time to the oldest; those
/// created at the same second keep their order.
pub fn rank_by_recency(snapshots: Vec<SerializedConversation>) -> (r: Vec<SerializedConversation>)
    ensures
        newest_first(r@),
        r@.to_multiset() == snapshots@.to_multiset(),
        r@.len() == snapshots@.len(),
{
    let mut out: Vec<SerializedConversation> = Vec::new();
    let mut rest = snapshots;
    let ghost all = rest@;
    while rest.len() > 0
        invariant
            newest_first(out@),
            out@.to_multiset().add(rest@.to_multiset()) == all.to_multiset(),
        decreases rest@.len(),
    {
        let item = rest.remove(0);
        let mut k: usize = 0;
        while k < out.len() && out[k].date_created >= item.date_created
            invariant
                k <= out@.len(),
                forall|m: int| 0 <= m < k ==> out@[m].date_created >= item.date_created,
            decreases out@.len() - k,
        {
            k = k + 1;
        }
        let ghost before_out = out@;
        proof {
            assert(k < out@.len() ==> out@[k as int].date_created < item.date_created);
        }
        out.insert(k, item);
        proof {
            assert(forall|m: int| k < m < out@.len() ==> out@[m] == before_out[m - 1]);
            assert(forall|m: int| 0 <= m < k ==> out@[m] == before_out[m]);
            assert(newest_first(out@));
        }
    }
    proof {
        assert(rest@.to_multiset() =~= Multiset::empty());
        out@.to_multiset_ensures();
        all.to_multiset_ensures();
    }
    out
}

/// What one slot of a load contributes.
pub open spec fn kept_of(x: Option<SerializedConversation>) -> Seq<SerializedConversation> {
    match x {
        Some(c) => seq![c],
        None => Seq::empty(),
    }
}

proof fn lemma_loaded_of_front(x: Option<SerializedConversation>, s: Seq<Option<SerializedConversation>>)
    ensures
        loaded_of(seq![x] + s) == kept_of(x) + loaded_of(s),
    decreases s.len(),
{
    let xs = seq![x] + s;
    if s.len() == 0 {
        assert(xs.drop_last() =~= Seq::<Option<SerializedConversation>>::empty());
        assert(xs.last() == x);
        assert(loaded_of(xs) == loaded_of(xs.drop_last()) + kept_of(x));
        assert(loaded_of(Seq::<Option<SerializedConversation>>::empty()) == Seq::<SerializedConversation>::empty());
        assert(kept_of(x) + loaded_of(s) =~= kept_of(x));
        assert(Seq::<SerializedConversation>::empty() + kept_of(x) =~= kept_of(x));
    } else {
        lemma_loaded_of_front(x, s.drop_last());
        assert(xs.drop_last() =~= seq![x] + s.drop_last());
        assert(xs.last() == s.last());
        assert(loaded_of(xs) == loaded_of(xs.drop_last()) + kept_of(s.last()));
        assert(loaded_of(s) == loaded_of(s.drop_last()) + kept_of(s.last()));
        assert(kept_of(x) + loaded_of(s) =~= kept_of(x) + loaded_of(s.drop_last()) + kept_of(s.last()));
    }
}

impl Conversation {
    /// The conversation ids among the file names of the store, in order.
    pub fn get_conversation_ids(names: &Vec<String>) -> (r: Vec<u64>)
        ensures
            r@ == ids_of(names@),
    {
        let mut ids: Vec<u64> = Vec::new();
        let mut i: usize = 0;
        while i < names.len()
            invariant
                i <= names@.len(),
                ids@ == ids_of(names@.take(i as int)),
            decreases names@.len() - i,
        {
            let parsed = parse_id(names[i].as_str());
            proof {
                assert(names@.take(i + 1).drop_last() =~= names@.take(i as int));
            }
            match parsed {
                Some(id) => {
                    ids.push(id);
                },
                None => {
                    assert(ids@ + Seq::<u64>::empty() =~= ids@);
                },
            }
            i = i + 1;
        }
        proof {
            assert(names@.take(names@.len() as int) =~= names@);
        }
        ids
    }

    /// The stored conversations that loaded, most recent first; those that failed
    /// to load are left out.
    pub fn list_conversations(loaded: Vec<Option<SerializedConversation>>) -> (r: Vec<SerializedConversation>)
        ensures
            newest_first(r@),
            r@.to_multiset() == loaded_of(loaded@).to_multiset(),
    {
        let mut kept: Vec<SerializedConversation> = Vec::new();
        let mut rest = loaded;
        let ghost all = rest@;
        while rest.len() > 0
            invariant
                kept@ + loaded_of(rest@) == loaded_of(all),
            decreases rest@.len(),
        {
            let ghost before = rest@;
            let item = rest.remove(0);
            proof {
                assert(before =~= seq![item] + rest@);
                lemma_loaded_of_front(item, rest@);
            }
            match item {
                Some(c) => {
                    kept.push(c);
                    proof {
                        assert(kept@ + loaded_of(rest@) =~= loaded_of(all));
                    }
                },
                None => {},
            }
        }
        proof {
            assert(rest@ =~= Seq::<Option<SerializedConversation>>::empty());
            assert(kept@ + Seq::<SerializedConversation>::empty() =~= kept@);
        }
        rank_by_recency(kept)
    }
}

} // verus!
