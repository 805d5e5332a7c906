//! The validated value objects of the graph: types, weights, timestamps,
//! vertices and edges.
use crate::errors::ValidationError;
use vstd::prelude::*;
use vstd::std_specs::cmp::PartialEqSpecImpl;
use vstd::string::StrSliceExecFns;

verus! {

/// The longest type name, in characters.
pub const MAX_TYPE_LENGTH: usize = 255;

/// The characters a type name may hold: ASCII letters, digits, dash and
/// underscore.
pub open spec fn is_type_char(c: char) -> bool {
    ||| 'a' <= c <= 'z'
    ||| 'A' <= c <= 'Z'
    ||| '0' <= c <= '9'
    ||| c == '-'
    ||| c == '_'
}

/// A text is well formed as a type name when it is not empty and every
/// character of it is allowed.
pub open spec fn type_text_matches(s: Seq<char>) -> bool {
    s.len() > 0 && forall|i: int| 0 <= i < s.len() ==> is_type_char(#[trigger] s[i])
}

/// What building a type from the text `s` gives: the length bound is tested
/// first, then the characters.
pub open spec fn type_check(s: Seq<char>) -> Result<(), ValidationError> {
    if s.len() > MAX_TYPE_LENGTH {
        Err(ValidationError::ValueTooLong)
    } else if !type_text_matches(s) {
        Err(ValidationError::InvalidValue)
    } else {
        Ok(())
    }
}

/// The pattern that a type name is matched against.
pub open spec fn type_pattern() -> Seq<char> {
    "^[a-zA-Z0-9-_]+$"@
}

/// Matches `text` against the type-name pattern with `regex::Regex::new`
/// and `Regex::is_match`. The contract is the pattern read by the regex
/// syntax: anchored at both ends of the text, one or more characters, each
/// an ASCII letter, a digit, `-` or `_`. A pattern that does not compile
/// matches nothing; the one admitted here compiles.
#[verifier::external_body]
fn pattern_is_match(pattern: &str, text: &str) -> (res: bool)
    requires
        pattern@ == type_pattern(),
    ensures
        res == type_text_matches(text@),
{
    match regex::Regex::new(pattern) {
        Ok(re) => re.is_match(text),
        Err(_) => false,
    }
}

/// An edge or vertex type: a short name of letters, digits, dashes and
/// underscores.
#[derive(Clone, Debug, PartialEq, Eq, Hash)]
pub struct Type(pub String);

impl View for Type {
    type V = Seq<char>;

    open spec fn view(&self) -> Seq<char> {
        self.0@
    }
}

impl Type {
    /// A type is well formed when its name passes `type_check`.
    pub open spec fn wf(&self) -> bool {
        type_check(self@) is Ok
    }

    /// Builds a type from its name, or says why the name is refused.
    pub fn new(t: String) -> (res: Result<Type, ValidationError>)
        ensures
            match res {
                Ok(ty) => type_check(t@) is Ok && ty@ == t@ && ty.wf(),
                Err(e) => type_check(t@) == Err::<(), ValidationError>(e),
            },
    {
        if t.as_str().unicode_len() > MAX_TYPE_LENGTH {
            Err(ValidationError::ValueTooLong)
        } else if !pattern_is_match("^[a-zA-Z0-9-_]+$", t.as_str()) {
            Err(ValidationError::InvalidValue)
        } else {
            Ok(Type(t))
        }
    }

    /// Builds a type from a string slice.
    pub fn from_str(s: &str) -> (res: Result<Type, ValidationError>)
        ensures
            match res {
                Ok(ty) => type_check(s@) is Ok && ty@ == s@ && ty.wf(),
                Err(e) => type_check(s@) == Err::<(), ValidationError>(e),
            },
    {
        Type::new(s.to_owned())
    }

    /// The name of this type.
    pub fn as_str(&self) -> (res: &str)
        ensures
            res@ == self@,
    {
        self.0.as_str()
    }

    /// Whether two types have the same name.
    pub fn same(&self, other: &Type) -> (res: bool)
        ensures
            res == (self@ == other@),
    {
        self.0 == other.0
    }

    /// An owned copy of this type.
    pub fn duplicate(&self) -> (res: Type)
        ensures
            res@ == self@,
            res.wf() == self.wf(),
    {
        Type(self.0.clone())
    }
}

/// Parsing a string slice builds the type of that name, as `Type::new`
/// does from an owned string.
impl core::str::FromStr for Type {
    type Err = ValidationError;

    fn from_str(s: &str) -> (res: Result<Type, ValidationError>)
        ensures
            match res {
                Ok(ty) => type_check(s@) is Ok && ty@ == s@ && ty.wf(),
                Err(e) => type_check(s@) == Err::<(), ValidationError>(e),
            },
    {
        Type::new(s.to_owned())
    }
}

/// The sign bit of a single-precision bit pattern.
pub const SIGN_BIT: u32 = 0x8000_0000;

/// The bit pattern of the single-precision number 1.0.
pub const ONE_BITS: u32 = 0x3f80_0000;

/// Whether a single-precision bit pattern has its sign bit set.
pub open spec fn is_negative(bits: u32) -> bool {
    bits >= SIGN_BIT
}

/// The bit pattern without its sign bit. Among finite numbers a larger
/// magnitude pattern is a larger absolute value; infinities and NaNs lie
/// above every finite one.
pub open spec fn magnitude(bits: u32) -> int {
    if bits >= SIGN_BIT {
        bits - SIGN_BIT
    } else {
        bits as int
    }
}

/// A bit pattern stands for a number in the closed interval from -1.0 to
/// 1.0 exactly when its magnitude does not exceed that of 1.0. Infinities
/// and NaNs are outside.
pub open spec fn weight_in_range(bits: u32) -> bool {
    magnitude(bits) <= ONE_BITS
}

/// The place of a bit pattern in the numeric order: for patterns that are
/// not NaN, `a` is at most `b` as numbers exactly when
/// `weight_rank(a) <= weight_rank(b)`. Both zeros share rank 0.
pub open spec fn weight_rank(bits: u32) -> int {
    if is_negative(bits) {
        -magnitude(bits)
    } else {
        magnitude(bits)
    }
}

/// An edge weight, between -1.0 and 1.0, held as the IEEE 754 bit pattern
/// of a single-precision number.
#[derive(Clone, Copy, Debug, PartialEq, Eq, Structural)]
pub struct Weight(pub u32);

impl Weight {
    /// A weight is well formed when it lies in the interval.
    pub open spec fn wf(&self) -> bool {
        weight_in_range(self.0)
    }

    /// The place of this weight in the numeric order.
    pub open spec fn spec_rank(&self) -> int {
        weight_rank(self.0)
    }

    /// Builds a weight from the bit pattern of a single-precision number;
    /// refuses a number below -1.0 or above 1.0, and anything that is not
    /// a number.
    pub fn new(bits: u32) -> (res: Result<Weight, ValidationError>)
        ensures
            weight_in_range(bits) ==> res == Ok::<Weight, ValidationError>(Weight(bits)),
            !weight_in_range(bits) ==> res == Err::<Weight, ValidationError>(
                ValidationError::InvalidValue,
            ),
    {
        let mag: u32 = if bits >= SIGN_BIT {
            bits - SIGN_BIT
        } else {
            bits
        };
        if mag > ONE_BITS {
            Err(ValidationError::InvalidValue)
        } else {
            Ok(Weight(bits))
        }
    }

    /// The bit pattern of this weight.
    pub fn bits(&self) -> (res: u32)
        ensures
            res == self.0,
    {
        self.0
    }

    /// The place of this weight in the numeric order.
    pub fn rank(&self) -> (res: i64)
        ensures
            res == self.spec_rank(),
    {
        if self.0 >= SIGN_BIT {
            let mag: u32 = self.0 - SIGN_BIT;
            let m: i64 = mag as i64;
            -m
        } else {
            self.0 as i64
        }
    }
}

/// An instant in UTC: whole seconds since the Unix epoch and the
/// nanoseconds past that second.
#[derive(Clone, Copy, Debug, PartialEq, Eq, Structural)]
pub struct Timestamp {
    pub secs: i64,
    pub nanos: u32,
}

impl Timestamp {
    /// Whether this instant is `other` or comes after it.
    pub open spec fn spec_not_before(self, other: Timestamp) -> bool {
        self.secs > other.secs || (self.secs == other.secs && self.nanos >= other.nanos)
    }

    /// The later of two instants.
    pub open spec fn spec_later(self, other: Timestamp) -> Timestamp {
        if self.spec_not_before(other) {
            self
        } else {
            other
        }
    }

    /// Whether this instant is `other` or comes after it.
    pub fn not_before(&self, other: &Timestamp) -> (res: bool)
        ensures
            res == self.spec_not_before(*other),
    {
        self.secs > other.secs || (self.secs == other.secs && self.nanos >= other.nanos)
    }

    /// The later of two instants.
    pub fn later(self, other: Timestamp) -> (res: Timestamp)
        ensures
            res == self.spec_later(other),
    {
        if self.not_before(&other) {
            self
        } else {
            other
        }
    }
}

/// Reads the clock with `chrono::Utc::now` and splits the instant with
/// `DateTime::timestamp` and `DateTime::timestamp_subsec_nanos`. Nothing is
/// claimed of the instant read.
#[verifier::external_body]
fn utc_now() -> (res: Timestamp) {
    let now = chrono::Utc::now();
    Timestamp { secs: now.timestamp(), nanos: now.timestamp_subsec_nanos() }
}

/// The identifier that follows `id` where identifiers are handed out in
/// increasing order; there is none after the greatest.
pub fn next_id(id: u64) -> (res: Result<u64, ValidationError>)
    ensures
        id < u64::MAX ==> res == Ok::<u64, ValidationError>((id + 1) as u64),
        id == u64::MAX ==> res == Err::<u64, ValidationError>(
            ValidationError::CannotIncrementUuid,
        ),
{
    if id == u64::MAX {
        Err(ValidationError::CannotIncrementUuid)
    } else {
        Ok(id + 1)
    }
}

/// What identifies vertices. Any type with a mathematical value by which
/// two identifiers are told apart can serve.
pub trait Id: View + Sized {
    /// Whether two identifiers denote the same value.
    fn same(&self, other: &Self) -> (res: bool)
        ensures
            res == (self@ == other@),
    ;

    /// An owned copy of this identifier.
    fn duplicate(&self) -> (res: Self)
        ensures
            res@ == self@,
    ;
}

impl Id for u64 {
    fn same(&self, other: &u64) -> (res: bool) {
        *self == *other
    }

    fn duplicate(&self) -> (res: u64) {
        *self
    }
}

impl Id for u128 {
    fn same(&self, other: &u128) -> (res: bool) {
        *self == *other
    }

    fn duplicate(&self) -> (res: u128) {
        *self
    }
}

impl Id for String {
    fn same(&self, other: &String) -> (res: bool) {
        *self == *other
    }

    fn duplicate(&self) -> (res: String) {
        self.clone()
    }
}

/// The mathematical value of a vertex.
pub struct VertexView<K> {
    pub id: K,
    pub t: Seq<char>,
}

/// A vertex: an entity with an identifier and a type.
#[derive(Clone, Debug)]
pub struct Vertex<I: Id> {
    /// The id of the vertex.
    pub id: I,
    /// The type of the vertex.
    pub t: Type,
}

impl<I: Id> View for Vertex<I> {
    type V = VertexView<I::V>;

    open spec fn view(&self) -> VertexView<I::V> {
        VertexView { id: self.id@, t: self.t@ }
    }
}

impl<I: Id> Vertex<I> {
    /// Creates a new vertex.
    pub fn new(id: I, t: Type) -> (res: Vertex<I>)
        ensures
            res.id == id,
            res.t == t,
    {
        Vertex { id: id, t: t }
    }

    /// Whether two vertices are the same vertex: they are when their ids
    /// are equal, whatever their types.
    pub fn same(&self, other: &Vertex<I>) -> (res: bool)
        ensures
            res == (self@.id == other@.id),
    {
        self.id.same(&other.id)
    }

    /// An owned copy of this vertex.
    pub fn duplicate(&self) -> (res: Vertex<I>)
        ensures
            res@ == self@,
    {
        Vertex { id: self.id.duplicate(), t: self.t.duplicate() }
    }
}

/// `==` on vertices is identity: equal ids.
impl<I: Id> PartialEq for Vertex<I> {
    fn eq(&self, other: &Vertex<I>) -> (res: bool) {
        self.id.same(&other.id)
    }
}

impl<I: Id> PartialEqSpecImpl for Vertex<I> {
    open spec fn obeys_eq_spec() -> bool {
        true
    }

    open spec fn eq_spec(&self, other: &Vertex<I>) -> bool {
        self.id@ == other.id@
    }
}

impl<I: Id> Eq for Vertex<I> {

}

/// The mathematical value of an edge.
pub struct EdgeView<K> {
    pub outbound_id: K,
    pub t: Seq<char>,
    pub inbound_id: K,
    pub weight: Weight,
    pub update_datetime: Timestamp,
}

impl<K> EdgeView<K> {
    /// Two edges are the same edge when they agree on the outbound id, the
    /// type and the inbound id.
    pub open spec fn same_key(self, other: EdgeView<K>) -> bool {
        &&& self.outbound_id == other.outbound_id
        &&& self.t == other.t
        &&& self.inbound_id == other.inbound_id
    }

    /// This edge as it is stored in place of `stored`: with its own
    /// weight, and with the later of the two instants.
    pub open spec fn replacing(self, stored: EdgeView<K>) -> EdgeView<K> {
        EdgeView {
            outbound_id: self.outbound_id,
            t: self.t,
            inbound_id: self.inbound_id,
            weight: self.weight,
            update_datetime: self.update_datetime.spec_later(stored.update_datetime),
        }
    }
}

/// An edge: a directed, typed, weighted relationship from the outbound
/// vertex to the inbound one.
#[derive(Clone, Debug)]
pub struct Edge<I: Id> {
    /// The id of the outbound vertex.
    pub outbound_id: I,
    /// The type of the edge.
    pub t: Type,
    /// The id of the inbound vertex.
    pub inbound_id: I,
    /// The weight of the edge.
    pub weight: Weight,
    /// When the edge was last updated.
    pub update_datetime: Timestamp,
}

impl<I: Id> View for Edge<I> {
    type V = EdgeView<I::V>;

    open spec fn view(&self) -> EdgeView<I::V> {
        EdgeView {
            outbound_id: self.outbound_id@,
            t: self.t@,
            inbound_id: self.inbound_id@,
            weight: self.weight,
            update_datetime: self.update_datetime,
        }
    }
}

impl<I: Id> Edge<I> {
    /// Creates a new edge stamped with the current instant in UTC.
    pub fn new_with_current_datetime(outbound_id: I, t: Type, inbound_id: I, weight: Weight) -> (res:
        Edge<I>)
        ensures
            res.outbound_id == outbound_id,
            res.t == t,
            res.inbound_id == inbound_id,
            res.weight == weight,
    {
        Edge::new(outbound_id, t, inbound_id, weight, utc_now())
    }

    /// Creates a new edge with a specified instant.
    pub fn new(
        outbound_id: I,
        t: Type,
        inbound_id: I,
        weight: Weight,
        update_datetime: Timestamp,
    ) -> (res: Edge<I>)
        ensures
            res.outbound_id == outbound_id,
            res.t == t,
            res.inbound_id == inbound_id,
            res.weight == weight,
            res.update_datetime == update_datetime,
    {
        Edge {
            outbound_id: outbound_id,
            t: t,
            inbound_id: inbound_id,
            weight: weight,
            update_datetime: update_datetime,
        }
    }

    /// Whether two edges are the same edge: weight and instant do not
    /// count.
    pub fn same(&self, other: &Edge<I>) -> (res: bool)
        ensures
            res == self@.same_key(other@),
    {
        self.outbound_id.same(&other.outbound_id) && self.t.same(&other.t) && self.inbound_id.same(
            &other.inbound_id,
        )
    }

    /// An owned copy of this edge.
    pub fn duplicate(&self) -> (res: Edge<I>)
        ensures
            res@ == self@,
    {
        Edge {
            outbound_id: self.outbound_id.duplicate(),
            t: self.t.duplicate(),
            inbound_id: self.inbound_id.duplicate(),
            weight: self.weight,
            update_datetime: self.update_datetime,
        }
    }
}

/// `==` on edges is identity: equal outbound id, type and inbound id.
impl<I: Id> PartialEq for Edge<I> {
    fn eq(&self, other: &Edge<I>) -> (res: bool) {
        self.same(other)
    }
}

impl<I: Id> PartialEqSpecImpl for Edge<I> {
    open spec fn obeys_eq_spec() -> bool {
        true
    }

    open spec fn eq_spec(&self, other: &Edge<I>) -> bool {
        self@.same_key(other@)
    }
}

impl<I: Id> Eq for Edge<I> {

}

} // verus!
