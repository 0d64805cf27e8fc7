//! Dotted numeric versions: scanned and compared by the `version_compare`
//! crate, held here as their numeric parts.

use vstd::prelude::*;
use vstd::string::StrSliceExecFns;
use crate::text::{decimal, push_decimal};

verus! {

/// How one version stands to another.
#[derive(Clone, Copy, Debug, PartialEq, Eq, Structural)]
pub enum VersionOrder {
    Less,
    Equal,
    Greater,
}

/// The part of a version at position `i`; a version is read as if zeros
/// followed its last part.
pub open spec fn part_at(v: Seq<int>, i: int) -> int {
    if 0 <= i < v.len() {
        v[i]
    } else {
        0
    }
}

/// `k` is the first position at which `a` and `b` differ.
pub open spec fn first_difference(a: Seq<int>, b: Seq<int>, k: int) -> bool {
    &&& 0 <= k
    &&& part_at(a, k) != part_at(b, k)
    &&& forall|j: int| 0 <= j < k ==> part_at(a, j) == part_at(b, j)
}

/// The order of two versions: that of their parts at the first position at
/// which they differ, and `Equal` where they differ nowhere.
#[verifier::opaque]
pub open spec fn numeric_order(a: Seq<int>, b: Seq<int>) -> VersionOrder {
    if exists|k: int| first_difference(a, b, k) {
        let k = choose|k: int| first_difference(a, b, k);
        if part_at(a, k) < part_at(b, k) {
            VersionOrder::Less
        } else {
            VersionOrder::Greater
        }
    } else {
        VersionOrder::Equal
    }
}

/// Two versions differ first at one position only.
pub proof fn first_difference_unique(a: Seq<int>, b: Seq<int>, k: int, m: int)
    requires
        first_difference(a, b, k),
        first_difference(a, b, m),
    ensures
        k == m,
{
    if k < m {
        assert(part_at(a, k) == part_at(b, k));
    } else if m < k {
        assert(part_at(a, m) == part_at(b, m));
    }
}

/// A first difference decides the order.
pub proof fn order_at_first_difference(a: Seq<int>, b: Seq<int>, k: int)
    requires
        first_difference(a, b, k),
    ensures
        numeric_order(a, b) == if part_at(a, k) < part_at(b, k) {
            VersionOrder::Less
        } else {
            VersionOrder::Greater
        },
{
    reveal(numeric_order);
    let m = choose|m: int| first_difference(a, b, m);
    first_difference_unique(a, b, k, m);
}

/// Versions that are not equal in order differ somewhere first.
pub proof fn difference_of_unequal(a: Seq<int>, b: Seq<int>) -> (k: int)
    requires
        numeric_order(a, b) != VersionOrder::Equal,
    ensures
        first_difference(a, b, k),
        numeric_order(a, b) == VersionOrder::Less <==> part_at(a, k) < part_at(b, k),
{
    reveal(numeric_order);
    choose|k: int| first_difference(a, b, k)
}

/// Versions of equal order agree at every position.
pub proof fn equal_order_agrees(a: Seq<int>, b: Seq<int>, i: int)
    requires
        numeric_order(a, b) == VersionOrder::Equal,
        0 <= i,
    ensures
        part_at(a, i) == part_at(b, i),
    decreases i,
{
    reveal(numeric_order);
    if part_at(a, i) != part_at(b, i) {
        if forall|j: int| 0 <= j < i ==> part_at(a, j) == part_at(b, j) {
            assert(first_difference(a, b, i));
        } else {
            let j = choose|j: int| 0 <= j < i && part_at(a, j) != part_at(b, j);
            equal_order_agrees(a, b, j);
        }
    }
}

/// Every version is equal in order to itself.
pub proof fn order_reflexive(a: Seq<int>)
    ensures
        numeric_order(a, a) == VersionOrder::Equal,
{
    reveal(numeric_order);
}

/// Swapping the two versions swaps `Less` and `Greater` and keeps `Equal`.
pub proof fn order_antisymmetric(a: Seq<int>, b: Seq<int>)
    ensures
        numeric_order(a, b) == VersionOrder::Less <==> numeric_order(b, a)
            == VersionOrder::Greater,
        numeric_order(a, b) == VersionOrder::Equal <==> numeric_order(b, a) == VersionOrder::Equal,
        numeric_order(a, b) == VersionOrder::Greater <==> numeric_order(b, a)
            == VersionOrder::Less,
{
    if numeric_order(a, b) != VersionOrder::Equal {
        let k = difference_of_unequal(a, b);
        assert(first_difference(b, a, k));
        order_at_first_difference(b, a, k);
    }
    if numeric_order(b, a) != VersionOrder::Equal {
        let k = difference_of_unequal(b, a);
        assert(first_difference(a, b, k));
        order_at_first_difference(a, b, k);
    }
}

/// The order is transitive: if `a` is not above `b` and `b` is not above
/// `c`, then `a` is not above `c`, and it is below `c` where either step is
/// strict.
pub proof fn order_transitive(a: Seq<int>, b: Seq<int>, c: Seq<int>)
    requires
        numeric_order(a, b) != VersionOrder::Greater,
        numeric_order(b, c) != VersionOrder::Greater,
    ensures
        numeric_order(a, c) != VersionOrder::Greater,
        numeric_order(a, b) == VersionOrder::Less || numeric_order(b, c) == VersionOrder::Less
            ==> numeric_order(a, c) == VersionOrder::Less,
{
    let ab = numeric_order(a, b);
    let bc = numeric_order(b, c);
    if ab == VersionOrder::Equal && bc == VersionOrder::Equal {
        if numeric_order(a, c) != VersionOrder::Equal {
            let k = difference_of_unequal(a, c);
            equal_order_agrees(a, b, k);
            equal_order_agrees(b, c, k);
        }
    } else if ab == VersionOrder::Equal {
        let k = difference_of_unequal(b, c);
        assert forall|j: int| 0 <= j <= k implies part_at(a, j) == part_at(b, j) by {
            equal_order_agrees(a, b, j);
        }
        assert(first_difference(a, c, k));
        order_at_first_difference(a, c, k);
    } else if bc == VersionOrder::Equal {
        let k = difference_of_unequal(a, b);
        assert forall|j: int| 0 <= j <= k implies part_at(b, j) == part_at(c, j) by {
            equal_order_agrees(b, c, j);
        }
        assert(first_difference(a, c, k));
        order_at_first_difference(a, c, k);
    } else {
        let k1 = difference_of_unequal(a, b);
        let k2 = difference_of_unequal(b, c);
        let k = if k1 <= k2 {
            k1
        } else {
            k2
        };
        assert(first_difference(a, c, k));
        order_at_first_difference(a, c, k);
    }
}

/// The parts that `version_compare` reads in a version text, in their order:
/// `Some` of its value for a numeric part, `None` for a part of text; `None`
/// as a whole where the crate rejects the text.
pub uninterp spec fn scanned_parts(text: Seq<char>) -> Option<Seq<Option<i32>>>;

/// The numbers of `parts` as mathematical integers.
pub open spec fn as_ints(parts: Seq<i32>) -> Seq<int> {
    parts.map_values(|p: i32| p as int)
}

/// The version that scanned parts stand for: their numbers, where every part
/// is a number and none is negative.
pub open spec fn numeric_parts(scanned: Seq<Option<i32>>) -> Option<Seq<int>> {
    if forall|i: int| 0 <= i < scanned.len() ==> numeric_part(#[trigger] scanned[i]) {
        Some(Seq::new(scanned.len(), |i: int| scanned[i]->0 as int))
    } else {
        None
    }
}

/// A scanned part that is a number and not negative.
pub open spec fn numeric_part(part: Option<i32>) -> bool {
    part is Some && part->0 >= 0
}

/// A version text without the `v` that may stand in front of it.
pub open spec fn without_prefix(text: Seq<char>) -> Seq<char> {
    if text.len() > 0 && text[0] == 'v' {
        text.drop_first()
    } else {
        text
    }
}

/// The version that a text stands for, if it stands for one.
pub open spec fn parsed(text: Seq<char>) -> Option<Seq<int>> {
    match scanned_parts(without_prefix(text)) {
        Some(parts) => numeric_parts(parts),
        None => None,
    }
}

/// The dotted numeral of a version: its parts in decimal, a dot between
/// neighbours.
pub open spec fn dotted(parts: Seq<int>) -> Seq<char>
    decreases parts.len(),
{
    if parts.len() == 0 {
        Seq::empty()
    } else if parts.len() == 1 {
        decimal(parts[0] as nat)
    } else {
        dotted(parts.drop_last()).push('.') + decimal(parts.last() as nat)
    }
}

/// Calls `version_compare::Version::from` and hands out the parts it read.
/// The contract only names them: the same text always gives the same parts.
#[verifier::external_body]
fn scan_parts(text: &str) -> (parts: Option<Vec<Option<i32>>>)
    ensures
        match parts {
            Some(v) => scanned_parts(text@) == Some(v@),
            None => scanned_parts(text@) is None,
        },
{
    let scanned = version_compare::Version::from(text)?;
    Some(
        scanned.parts().iter().map(
            |part|
                match part {
                    version_compare::Part::Number(n) => Some(*n),
                    version_compare::Part::Text(_) => None,
                },
        ).collect(),
    )
}

/// Calls `version_compare::Version::compare` on two versions made of the
/// given numeric parts. On parts that are numbers and not negative the crate
/// walks both lists from the front, reads a missing part as zero, and answers
/// at the first position where the numbers differ: `Lt`, `Gt`, or `Eq` where
/// there is none.
#[verifier::external_body]
fn compare_parts(a: &Vec<i32>, b: &Vec<i32>) -> (order: Option<VersionOrder>)
    requires
        forall|i: int| 0 <= i < a.len() ==> a[i] >= 0,
        forall|i: int| 0 <= i < b.len() ==> b[i] >= 0,
    ensures
        order == Some(numeric_order(as_ints(a@), as_ints(b@))),
{
    let lhs = version_compare::Version::from_parts(
        "",
        a.iter().map(|n| version_compare::Part::Number(*n)).collect(),
    );
    let rhs = version_compare::Version::from_parts(
        "",
        b.iter().map(|n| version_compare::Part::Number(*n)).collect(),
    );
    match lhs.compare(&rhs) {
        version_compare::Cmp::Lt => Some(VersionOrder::Less),
        version_compare::Cmp::Eq => Some(VersionOrder::Equal),
        version_compare::Cmp::Gt => Some(VersionOrder::Greater),
        _ => None,
    }
}

/// A dotted numeric version.
#[derive(Debug)]
pub struct Version {
    parts: Vec<i32>,
}

impl View for Version {
    type V = Seq<int>;

    closed spec fn view(&self) -> Seq<int> {
        as_ints(self.parts@)
    }
}

impl Clone for Version {
    fn clone(&self) -> (copy: Self)
        ensures
            copy@ == self@,
    {
        proof {
            use_type_invariant(self);
        }
        let copy = Version { parts: self.parts.clone() };
        assert(copy.parts@ =~= self.parts@);
        copy
    }
}

impl Version {
    #[verifier::type_invariant]
    spec fn parts_not_negative(self) -> bool {
        forall|i: int| 0 <= i < self.parts.len() ==> self.parts[i] >= 0
    }

    /// The version that scanned parts stand for.
    pub fn from_parts(scanned: Vec<Option<i32>>) -> (version: Option<Version>)
        ensures
            match version {
                Some(v) => numeric_parts(scanned@) == Some(v@),
                None => numeric_parts(scanned@) is None,
            },
    {
        let mut parts: Vec<i32> = Vec::new();
        let mut i: usize = 0;
        while i < scanned.len()
            invariant
                i <= scanned.len(),
                parts.len() == i,
                forall|j: int| 0 <= j < i ==> numeric_part(#[trigger] scanned[j]),
                forall|j: int| 0 <= j < i ==> parts[j] == scanned[j]->0,
            decreases scanned.len() - i,
        {
            match scanned[i] {
                Some(n) => {
                    if n < 0 {
                        assert(!numeric_part(scanned@[i as int]));
                        return None;
                    }
                    parts.push(n);
                },
                None => {
                    assert(!numeric_part(scanned@[i as int]));
                    return None;
                },
            }
            i += 1;
        }
        let version = Version { parts };
        assert(version@ =~= numeric_parts(scanned@)->0);
        Some(version)
    }

    /// Reads a version from its text. A `v` in front is passed over.
    pub fn parse(text: &str) -> (version: Option<Version>)
        ensures
            match version {
                Some(v) => parsed(text@) == Some(v@),
                None => parsed(text@) is None,
            },
    {
        let len = text.unicode_len();
        let scanned = if len > 0 && text.get_char(0) == 'v' {
            let rest = text.substring_char(1, len);
            assert(rest@ =~= without_prefix(text@));
            scan_parts(rest)
        } else {
            scan_parts(text)
        };
        match scanned {
            Some(parts) => Version::from_parts(parts),
            None => None,
        }
    }

    /// How this version stands to `other`.
    pub fn compare(&self, other: &Version) -> (order: VersionOrder)
        ensures
            order == numeric_order(self@, other@),
    {
        proof {
            use_type_invariant(self);
            use_type_invariant(other);
        }
        match compare_parts(&self.parts, &other.parts) {
            Some(order) => order,
            None => unreached(),
        }
    }

    /// The dotted numeral of this version.
    pub fn text(&self) -> (text: String)
        ensures
            text@ == dotted(self@),
    {
        proof {
            use_type_invariant(self);
        }
        let mut out = String::new();
        let mut i: usize = 0;
        while i < self.parts.len()
            invariant
                i <= self.parts.len(),
                forall|j: int| 0 <= j < self.parts.len() ==> self.parts[j] >= 0,
                out@ == dotted(as_ints(self.parts@).take(i as int)),
            decreases self.parts.len() - i,
        {
            let ghost before = as_ints(self.parts@).take(i as int);
            let ghost after = as_ints(self.parts@).take(i + 1);
            if i > 0 {
                out.push('.');
            }
            push_decimal(&mut out, self.parts[i] as u128);
            proof {
                assert(after.drop_last() =~= before);
                assert(after.last() == self.parts[i as int] as int);
                if i == 0 {
                    assert(before =~= Seq::<int>::empty());
                    assert(out@ =~= decimal(self.parts[0] as nat));
                }
            }
            i += 1;
        }
        assert(as_ints(self.parts@).take(i as int) =~= self@);
        out
    }
}

} // verus!
