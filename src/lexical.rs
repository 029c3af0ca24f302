//! Counting operator and operand tokens over a whole text.

use vstd::prelude::*;
use crate::patterns::{Pattern, matches_of};

verus! {

/// A maximal run of operator characters.
pub open spec fn operator_source() -> Seq<char> {
    "[+\\-*/%=<>&|]+"@
}

/// A maximal run of word characters between word boundaries.
pub open spec fn operand_source() -> Seq<char> {
    "\\b\\w+\\b"@
}

/// The operator tokens of `text`: each maximal run of `+ - * / % = < > & |`.
pub open spec fn operators_in(text: Seq<char>) -> Seq<Seq<char>> {
    matches_of(operator_source(), text)
}

/// The operand tokens of `text`: each maximal run of word characters.
pub open spec fn operands_in(text: Seq<char>) -> Seq<Seq<char>> {
    matches_of(operand_source(), text)
}

/// The distinct and total numbers of operators and operands in one text.
#[derive(Clone, Copy, Debug, PartialEq, Eq, Structural)]
pub struct LexicalCounts {
    /// Distinct operators (n1).
    pub distinct_operators: usize,
    /// Distinct operands (n2).
    pub distinct_operands: usize,
    /// Operator occurrences (N1).
    pub total_operators: usize,
    /// Operand occurrences (N2).
    pub total_operands: usize,
}

/// Whether two character sequences are equal.
pub fn same_chars(a: &Vec<char>, b: &Vec<char>) -> (r: bool)
    ensures
        r == (a@ == b@),
{
    if a.len() != b.len() {
        return false;
    }
    let mut i: usize = 0;
    while i < a.len()
        invariant
            i <= a@.len() == b@.len(),
            a@.take(i as int) == b@.take(i as int),
        decreases a@.len() - i,
    {
        if a[i] != b[i] {
            assert(a@[i as int] != b@[i as int]);
            return false;
        }
        assert(a@.take(i + 1) =~= a@.take(i as int).push(a@[i as int]));
        assert(b@.take(i + 1) =~= b@.take(i as int).push(b@[i as int]));
        i = i + 1;
    }
    assert(a@ =~= a@.take(i as int));
    assert(b@ =~= b@.take(i as int));
    true
}

/// The number of distinct sequences among `items`.
pub fn distinct_count(items: &Vec<Vec<char>>) -> (r: usize)
    ensures
        r == items@.map_values(|v: Vec<char>| v@).to_set().len(),
{
    broadcast use vstd::seq_lib::group_seq_properties;

    let ghost all = items@.map_values(|v: Vec<char>| v@);
    let mut firsts: Vec<usize> = Vec::new();
    let mut i: usize = 0;
    while i < items.len()
        invariant
            i <= items@.len(),
            all == items@.map_values(|v: Vec<char>| v@),
            forall|k: int| 0 <= k < firsts@.len() ==> #[trigger] firsts@[k] < i,
            firsts@.map_values(|k: usize| all[k as int]).no_duplicates(),
            firsts@.map_values(|k: usize| all[k as int]).to_set() == all.take(i as int).to_set(),
        decreases items@.len() - i,
    {
        let ghost u = firsts@.map_values(|k: usize| all[k as int]);
        let mut seen = false;
        let mut j: usize = 0;
        while j < firsts.len()
            invariant
                i < items@.len(),
                j <= firsts@.len(),
                all == items@.map_values(|v: Vec<char>| v@),
                u == firsts@.map_values(|k: usize| all[k as int]),
                forall|k: int| 0 <= k < firsts@.len() ==> #[trigger] firsts@[k] < i,
                seen == exists|k: int| 0 <= k < j && u[k] == all[i as int],
            decreases firsts@.len() - j,
        {
            let same = same_chars(&items[firsts[j]], &items[i]);
            assert(u[j as int] == all[firsts@[j as int] as int]);
            if same {
                seen = true;
            }
            j = j + 1;
        }
        assert(all.take(i + 1) =~= all.take(i as int).push(all[i as int]));
        proof {
            all.take(i as int).lemma_push_to_set_commute(all[i as int]);
            u.lemma_push_to_set_commute(all[i as int]);
        }
        if !seen {
            assert(!u.contains(all[i as int]));
            firsts.push(i);
            assert(firsts@.map_values(|k: usize| all[k as int]) =~= u.push(all[i as int]));
        } else {
            assert(u.contains(all[i as int]));
            assert(u.to_set().contains(all[i as int]));
            assert(all.take(i as int).to_set().contains(all[i as int]));
            assert(all.take(i + 1).to_set() =~= all.take(i as int).to_set());
        }
        i = i + 1;
    }
    assert(all.take(i as int) =~= all);
    proof {
        firsts@.map_values(|k: usize| all[k as int]).unique_seq_to_set();
    }
    firsts.len()
}

/// The two expressions that operators and operands are matched with.
pub struct TokenPatterns {
    operator_re: Pattern,
    operand_re: Pattern,
}

impl TokenPatterns {
    pub closed spec fn wf(&self) -> bool {
        &&& self.operator_re.source() == operator_source()
        &&& self.operand_re.source() == operand_source()
    }

    /// Compiles the two expressions; `None` where the regex crate refuses one.
    pub fn new() -> (r: Option<TokenPatterns>)
        ensures
            r matches Some(t) ==> t.wf(),
    {
        let operator_re = Pattern::new("[+\\-*/%=<>&|]+");
        let operand_re = Pattern::new("\\b\\w+\\b");
        match (operator_re, operand_re) {
            (Some(o), Some(d)) => Some(TokenPatterns { operator_re: o, operand_re: d }),
            _ => None,
        }
    }
}

/// Counts the operator and operand tokens of `content`, distinct and in all.
pub fn count_operators_and_operands(patterns: &TokenPatterns, content: &str) -> (r: LexicalCounts)
    requires
        patterns.wf(),
    ensures
        r.distinct_operators == operators_in(content@).to_set().len(),
        r.distinct_operands == operands_in(content@).to_set().len(),
        r.total_operators == operators_in(content@).len(),
        r.total_operands == operands_in(content@).len(),
{
    let operators = patterns.operator_re.find_all(content);
    let operands = patterns.operand_re.find_all(content);
    LexicalCounts {
        distinct_operators: distinct_count(&operators),
        distinct_operands: distinct_count(&operands),
        total_operators: operators.len(),
        total_operands: operands.len(),
    }
}

} // verus!
