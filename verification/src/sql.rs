//! Composed SQL statements: text pieces interleaved with numbered
//! placeholders (`$1`, `$2`, ...), and the values bound to them in order.
//!
//! Statements are only ever extended through `push_text`, `push_param` and
//! `push_param_twice`, which keep every statement well numbered: the
//! placeholders it mentions are exactly `$1` to `$n` for its `n` bound values.

use vstd::prelude::*;
use crate::text::push_char;

verus! {

/// A piece of SQL text: literal text or a numbered placeholder.
#[derive(Clone, Copy, Debug, PartialEq, Eq)]
pub enum SqlPiece {
    Text(&'static str),
    Param(u32),
}

/// `SqlPiece` with its text as a sequence.
pub enum SqlPieceView {
    Text(Seq<char>),
    Param(u32),
}

impl View for SqlPiece {
    type V = SqlPieceView;

    open spec fn view(&self) -> SqlPieceView {
        match self {
            SqlPiece::Text(t) => SqlPieceView::Text(t@),
            SqlPiece::Param(k) => SqlPieceView::Param(*k),
        }
    }
}

/// A decimal number: `mantissa * 10^-scale`.
#[derive(Clone, Copy, Debug, PartialEq, Eq, Structural)]
pub struct DecimalValue {
    pub mantissa: i128,
    pub scale: u32,
}

/// A value bound to a placeholder.
#[derive(Clone, Debug, PartialEq, Eq)]
pub enum SqlValue {
    Uuid(u128),
    Text(String),
    Bool(bool),
    Int(i64),
    /// A 32-bit integer, for `INTEGER` columns.
    Int32(i32),
    Decimal(DecimalValue),
    UuidList(Vec<u128>),
    /// SQL `NULL`, bound for an absent optional value.
    Null,
}

/// `SqlValue` with its text as a sequence.
pub enum SqlValueView {
    Uuid(u128),
    Text(Seq<char>),
    Bool(bool),
    Int(i64),
    Int32(i32),
    Decimal(DecimalValue),
    UuidList(Seq<u128>),
    Null,
}

impl View for SqlValue {
    type V = SqlValueView;

    open spec fn view(&self) -> SqlValueView {
        match self {
            SqlValue::Uuid(u) => SqlValueView::Uuid(*u),
            SqlValue::Text(t) => SqlValueView::Text(t@),
            SqlValue::Bool(b) => SqlValueView::Bool(*b),
            SqlValue::Int(i) => SqlValueView::Int(*i),
            SqlValue::Int32(i) => SqlValueView::Int32(*i),
            SqlValue::Decimal(d) => SqlValueView::Decimal(*d),
            SqlValue::UuidList(v) => SqlValueView::UuidList(v@),
            SqlValue::Null => SqlValueView::Null,
        }
    }
}

/// A statement: its pieces and the values bound to `$1`, `$2`, ...
#[derive(Clone, Debug, PartialEq, Eq)]
pub struct SqlQuery {
    pub pieces: Vec<SqlPiece>,
    pub binds: Vec<SqlValue>,
}

/// The pieces of a statement, as views.
pub open spec fn pieces_view(q: SqlQuery) -> Seq<SqlPieceView> {
    q.pieces@.map_values(|p: SqlPiece| p@)
}

/// The bound values of a statement, as views.
pub open spec fn binds_view(q: SqlQuery) -> Seq<SqlValueView> {
    q.binds@.map_values(|v: SqlValue| v@)
}

/// The placeholder numbers that `ps` mentions.
pub open spec fn params(ps: Seq<SqlPieceView>) -> Set<u32>
    decreases ps.len(),
{
    if ps.len() == 0 {
        Set::empty()
    } else {
        let rest = params(ps.drop_last());
        match ps.last() {
            SqlPieceView::Param(k) => rest.insert(k),
            SqlPieceView::Text(_) => rest,
        }
    }
}

/// `$1` to `$n`.
pub open spec fn first_params(n: nat) -> Set<u32> {
    Set::new(|k: u32| 1 <= k <= n)
}

/// Every placeholder of `q` is bound, and every bound value has a placeholder.
pub open spec fn well_numbered(q: SqlQuery) -> bool {
    params(pieces_view(q)) == first_params(q.binds@.len())
}

/// The decimal digit of `n` (`0 <= n < 10`).
pub open spec fn digit(n: int) -> char {
    seq!['0', '1', '2', '3', '4', '5', '6', '7', '8', '9'][n]
}

/// The decimal rendering of `n`, without leading zeros.
pub open spec fn decimal(n: nat) -> Seq<char>
    decreases n,
{
    if n < 10 {
        seq![digit(n as int)]
    } else {
        decimal(n / 10).push(digit((n % 10) as int))
    }
}

/// The text of a statement: literal pieces as they are, placeholder `k` as `$k`.
pub open spec fn rendered(ps: Seq<SqlPieceView>) -> Seq<char>
    decreases ps.len(),
{
    if ps.len() == 0 {
        Seq::empty()
    } else {
        rendered(ps.drop_last()) + match ps.last() {
            SqlPieceView::Text(t) => t,
            SqlPieceView::Param(k) => seq!['$'] + decimal(k as nat),
        }
    }
}

/// Appends the decimal rendering of `n`.
pub fn push_decimal(s: &mut String, n: u32)
    ensures
        final(s)@ == old(s)@ + decimal(n as nat),
    decreases n,
{
    if n >= 10 {
        push_decimal(s, n / 10);
    }
    let d = n % 10;
    let c = if d == 0 { '0' } else if d == 1 { '1' } else if d == 2 { '2' } else if d == 3 { '3' }
        else if d == 4 { '4' } else if d == 5 { '5' } else if d == 6 { '6' } else if d == 7 { '7' }
        else if d == 8 { '8' } else { '9' };
    push_char(s, c);
}

impl SqlQuery {
    /// An empty statement.
    pub fn new() -> (q: SqlQuery)
        ensures
            pieces_view(q) == Seq::<SqlPieceView>::empty(),
            binds_view(q) == Seq::<SqlValueView>::empty(),
            q.binds@.len() == 0,
            well_numbered(q),
    {
        let q = SqlQuery { pieces: Vec::new(), binds: Vec::new() };
        assert(pieces_view(q) =~= Seq::<SqlPieceView>::empty());
        assert(binds_view(q) =~= Seq::<SqlValueView>::empty());
        assert(first_params(0) =~= Set::<u32>::empty());
        q
    }

    /// Appends literal text.
    pub fn push_text(&mut self, t: &'static str)
        requires
            well_numbered(*old(self)),
        ensures
            pieces_view(*final(self)) == pieces_view(*old(self)).push(SqlPieceView::Text(t@)),
            binds_view(*final(self)) == binds_view(*old(self)),
            final(self).binds@ == old(self).binds@,
            well_numbered(*final(self)),
    {
        let ghost before = pieces_view(*self);
        self.pieces.push(SqlPiece::Text(t));
        assert(pieces_view(*self) =~= before.push(SqlPieceView::Text(t@)));
        assert(pieces_view(*self).drop_last() =~= before);
        assert(binds_view(*self) =~= binds_view(*old(self)));
    }

    /// Appends `t`, then a new placeholder bound to `v`.
    pub fn push_param(&mut self, t: &'static str, v: SqlValue)
        requires
            well_numbered(*old(self)),
            old(self).binds@.len() < u32::MAX,
        ensures
            pieces_view(*final(self)) == pieces_view(*old(self)).push(SqlPieceView::Text(t@)).push(
                SqlPieceView::Param((old(self).binds@.len() + 1) as u32),
            ),
            binds_view(*final(self)) == binds_view(*old(self)).push(v@),
            final(self).binds@.len() == old(self).binds@.len() + 1,
            well_numbered(*final(self)),
    {
        self.push_text(t);
        let k = (self.binds.len() + 1) as u32;
        let ghost before = pieces_view(*self);
        let ghost n = self.binds@.len();
        self.pieces.push(SqlPiece::Param(k));
        let ghost bbefore = binds_view(*self);
        self.binds.push(v);
        assert(pieces_view(*self) =~= before.push(SqlPieceView::Param(k)));
        assert(pieces_view(*self).drop_last() =~= before);
        assert(binds_view(*self) =~= bbefore.push(v@));
        assert(first_params(n).insert(k) =~= first_params(n + 1));
    }

    /// Appends `t1`, a new placeholder bound to `v`, `t2`, the same
    /// placeholder again and `t3`.
    pub fn push_param_twice(&mut self, t1: &'static str, t2: &'static str, t3: &'static str, v: SqlValue)
        requires
            well_numbered(*old(self)),
            old(self).binds@.len() < u32::MAX,
        ensures
            pieces_view(*final(self)) == pieces_view(*old(self)).push(SqlPieceView::Text(t1@)).push(
                SqlPieceView::Param((old(self).binds@.len() + 1) as u32),
            ).push(SqlPieceView::Text(t2@)).push(
                SqlPieceView::Param((old(self).binds@.len() + 1) as u32),
            ).push(SqlPieceView::Text(t3@)),
            binds_view(*final(self)) == binds_view(*old(self)).push(v@),
            well_numbered(*final(self)),
    {
        self.push_param(t1, v);
        let k = self.binds.len() as u32;
        assert(k == old(self).binds@.len() + 1);
        self.push_text(t2);
        let ghost before = pieces_view(*self);
        self.pieces.push(SqlPiece::Param(k));
        assert(pieces_view(*self) =~= before.push(SqlPieceView::Param(k)));
        assert(pieces_view(*self).drop_last() =~= before);
        assert(params(before).contains(k));
        assert(params(pieces_view(*self)) =~= params(before));
        self.push_text(t3);
    }

    /// Appends `t`, then the latest placeholder again.
    pub fn push_repeat(&mut self, t: &'static str)
        requires
            well_numbered(*old(self)),
            1 <= old(self).binds@.len() <= u32::MAX,
        ensures
            pieces_view(*final(self)) == pieces_view(*old(self)).push(SqlPieceView::Text(t@)).push(
                SqlPieceView::Param(old(self).binds@.len() as u32),
            ),
            binds_view(*final(self)) == binds_view(*old(self)),
            final(self).binds@ == old(self).binds@,
            well_numbered(*final(self)),
    {
        self.push_text(t);
        let k = self.binds.len() as u32;
        let ghost before = pieces_view(*self);
        self.pieces.push(SqlPiece::Param(k));
        assert(pieces_view(*self) =~= before.push(SqlPieceView::Param(k)));
        assert(pieces_view(*self).drop_last() =~= before);
        assert(params(before).contains(k));
        assert(params(pieces_view(*self)) =~= params(before));
    }

    /// Appends `t`, then placeholder `k` again (`k` is already bound).
    pub fn push_again(&mut self, t: &'static str, k: u32)
        requires
            well_numbered(*old(self)),
            1 <= k <= old(self).binds@.len(),
        ensures
            pieces_view(*final(self)) == pieces_view(*old(self)).push(SqlPieceView::Text(t@)).push(SqlPieceView::Param(k)),
            binds_view(*final(self)) == binds_view(*old(self)),
            final(self).binds@ == old(self).binds@,
            well_numbered(*final(self)),
    {
        self.push_text(t);
        let ghost before = pieces_view(*self);
        self.pieces.push(SqlPiece::Param(k));
        assert(pieces_view(*self) =~= before.push(SqlPieceView::Param(k)));
        assert(pieces_view(*self).drop_last() =~= before);
        assert(first_params(self.binds@.len()).contains(k));
        assert(params(before).contains(k));
        assert(params(pieces_view(*self)) =~= params(before));
    }

    /// The statement's text.
    pub fn render(&self) -> (s: String)
        ensures
            s@ == rendered(pieces_view(*self)),
    {
        let mut s = String::new();
        let mut i: usize = 0;
        while i < self.pieces.len()
            invariant
                i <= self.pieces@.len(),
                s@ == rendered(pieces_view(*self).subrange(0, i as int)),
            decreases self.pieces@.len() - i,
        {
            let ghost pre = pieces_view(*self).subrange(0, i as int);
            match self.pieces[i] {
                SqlPiece::Text(t) => s.append(t),
                SqlPiece::Param(k) => {
                    push_char(&mut s, '$');
                    push_decimal(&mut s, k);
                },
            }
            assert(pieces_view(*self).subrange(0, i + 1).drop_last() =~= pre);
            i = i + 1;
        }
        assert(pieces_view(*self).subrange(0, self.pieces@.len() as int) =~= pieces_view(*self));
        s
    }
}

/// The separator between listed placeholders.
pub const COMMA: &'static str = ", ";

/// `head $1, $2, ..., $n`.
pub open spec fn listed_params(head: Seq<char>, n: nat) -> Seq<SqlPieceView>
    decreases n,
{
    if n == 0 {
        Seq::empty()
    } else if n == 1 {
        seq![SqlPieceView::Text(head), SqlPieceView::Param(1)]
    } else {
        listed_params(head, (n - 1) as nat) + seq![SqlPieceView::Text(COMMA@), SqlPieceView::Param(n as u32)]
    }
}

/// `head $1, $2, ..., $n tail`.
pub open spec fn listed_pieces(head: Seq<char>, n: nat, tail: Seq<char>) -> Seq<SqlPieceView> {
    listed_params(head, n) + seq![SqlPieceView::Text(tail)]
}

/// The views of a list of values.
pub open spec fn values_view(vals: Seq<SqlValue>) -> Seq<SqlValueView> {
    vals.map_values(|v: SqlValue| v@)
}

/// The statement `head $1, $2, ..., $n tail` with `vals` bound in order.
pub fn listed_statement(head: &'static str, vals: Vec<SqlValue>, tail: &'static str) -> (q: SqlQuery)
    requires
        1 <= vals@.len() < u32::MAX,
    ensures
        well_numbered(q),
        pieces_view(q) == listed_pieces(head@, vals@.len(), tail@),
        binds_view(q) == values_view(vals@),
{
    let ghost orig = vals@;
    let mut vals = vals;
    let mut q = SqlQuery::new();
    let v0 = vals.remove(0);
    q.push_param(head, v0);
    assert(pieces_view(q) =~= listed_params(head@, 1));
    assert(binds_view(q) =~= values_view(orig.subrange(0, 1)));
    let mut i: usize = 1;
    while vals.len() > 0
        invariant
            well_numbered(q),
            1 <= i <= orig.len(),
            orig.len() < u32::MAX,
            q.binds@.len() == i,
            vals@ == orig.subrange(i as int, orig.len() as int),
            pieces_view(q) == listed_params(head@, i as nat),
            binds_view(q) == values_view(orig.subrange(0, i as int)),
        decreases vals@.len(),
    {
        let ghost p0 = pieces_view(q);
        let ghost b0 = binds_view(q);
        let v = vals.remove(0);
        q.push_param(COMMA, v);
        assert(pieces_view(q) =~= listed_params(head@, (i + 1) as nat));
        assert(values_view(orig.subrange(0, i + 1)) =~= b0.push(v@));
        i = i + 1;
    }
    assert(orig.subrange(0, i as int) =~= orig);
    let ghost p1 = pieces_view(q);
    q.push_text(tail);
    assert(pieces_view(q) =~= listed_pieces(head@, orig.len(), tail@));
    q
}

} // verus!
