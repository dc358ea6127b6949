//! Raw postgres values and the type oid that travels with them.
use std::ops::Range;
use vstd::prelude::*;

verus! {

/// A postgres type oid. Postgres never hands out the oid zero, so an `Oid`
/// always holds a non-zero number.
#[derive(Clone, Copy, PartialEq, Eq, Structural, Debug)]
pub struct Oid {
    value: u32,
}

impl View for Oid {
    type V = u32;

    closed spec fn view(&self) -> u32 {
        self.value
    }
}

impl Oid {
    #[verifier::type_invariant]
    spec fn non_zero(self) -> bool {
        self.value != 0
    }

    /// Makes an oid from a number; `None` for zero.
    pub fn new(value: u32) -> (oid: Option<Oid>)
        ensures
            oid is Some <==> value != 0,
            oid matches Some(o) ==> o@ == value,
    {
        if value == 0 {
            None
        } else {
            Some(Oid { value })
        }
    }

    /// The number behind this oid.
    pub fn get(self) -> (value: u32)
        ensures
            value == self@,
            value != 0,
    {
        proof {
            use_type_invariant(&self);
        }
        self.value
    }
}

/// A deferred lookup of the type oid of a value.
///
/// A connection can hand out values whose oid is only asked for when
/// someone needs it; a backend that knows the oid up front hands out an
/// [`Oid`] directly, or a closure that finds it.
pub trait TypeOidLookup {
    /// Whether the lookup can be made.
    spec fn lookup_ready(&self) -> bool;

    /// `oid` is an oid that a lookup on this source may yield.
    spec fn yields_oid(&self, oid: Oid) -> bool;

    /// Lookup the type oid for the current value.
    fn lookup(&self) -> (oid: Oid)
        requires
            self.lookup_ready(),
        ensures
            self.yields_oid(oid),
    ;
}

impl TypeOidLookup for Oid {
    open spec fn lookup_ready(&self) -> bool {
        true
    }

    open spec fn yields_oid(&self, oid: Oid) -> bool {
        oid == *self
    }

    fn lookup(&self) -> (oid: Oid)
        ensures
            oid == *self,
    {
        *self
    }
}

/// An oid looked up on itself yields itself and nothing else, for every
/// oid: a value built on an oid (`PgValue::new(bytes, &oid)`) has that oid.
pub proof fn lemma_oid_yields_itself(oid: Oid, found: Oid)
    ensures
        oid.lookup_ready(),
        oid.yields_oid(found) <==> found == oid,
        oid.yields_oid(found) <==> found@ == oid@,
{
}

impl<F: Fn() -> Oid> TypeOidLookup for F {
    /// The closure can be called.
    open spec fn lookup_ready(&self) -> bool {
        self.requires(())
    }

    /// The closure may return `oid`.
    open spec fn yields_oid(&self, oid: Oid) -> bool {
        self.ensures((), oid)
    }

    fn lookup(&self) -> (oid: Oid) {
        (self)()
    }
}

/// What the database knows of a type looked up by name: its oid and the oid
/// of its array type, or, where it has no such type, the name asked for.
#[derive(Debug)]
pub enum PgTypeMetadata {
    Found { oid: Oid, array_oid: Oid },
    NotFound { name: String, schema: Option<String> },
}

/// The characters of an optional schema name.
pub open spec fn schema_view(schema: Option<&str>) -> Option<Seq<char>> {
    match schema {
        Some(s) => Some(s@),
        None => None,
    }
}

impl PgTypeMetadata {
    /// This is the metadata of a type named `name` in `schema` that the
    /// lookup did not find.
    pub open spec fn is_not_found(self, name: Seq<char>, schema: Option<Seq<char>>) -> bool {
        &&& self matches PgTypeMetadata::NotFound { name: n, schema: s }
        &&& n@ == name
        &&& match s {
            Some(y) => schema == Some(y@),
            None => schema is None,
        }
    }

    /// The metadata of a type the lookup did not find.
    pub fn not_found(name: &str, schema: Option<&str>) -> (metadata: PgTypeMetadata)
        ensures
            metadata.is_not_found(name@, schema_view(schema)),
    {
        let schema = match schema {
            Some(s) => Some(s.to_owned()),
            None => None,
        };
        PgTypeMetadata::NotFound { name: name.to_owned(), schema }
    }
}

/// Looks up, by name, the metadata of types that have no fixed oid (types
/// that an extension or a user created). A connection answers by asking
/// the database, so no two answers need agree.
pub trait PgMetadataLookup {
    /// `metadata` is an answer this lookup may give for the type `name` in
    /// `schema`. A lookup that says nothing of its answers may give any.
    open spec fn answers(
        &self,
        name: Seq<char>,
        schema: Option<Seq<char>>,
        metadata: PgTypeMetadata,
    ) -> bool {
        true
    }

    /// The metadata of the type `name` in `schema` (the search path
    /// where `None`).
    fn lookup_type(&mut self, name: &str, schema: Option<&str>) -> (metadata: PgTypeMetadata)
        ensures
            old(self).answers(name@, schema_view(schema), metadata),
    ;
}

/// A metadata lookup that can be shared by all values read from one
/// connection: it guards the connection's mutability itself.
pub trait PgMetadataLookupNonMut {
    /// `metadata` is an answer this lookup may give for the type `name` in
    /// `schema`. A lookup that says nothing of its answers may give any.
    open spec fn answers(
        &self,
        name: Seq<char>,
        schema: Option<Seq<char>>,
        metadata: PgTypeMetadata,
    ) -> bool {
        true
    }

    /// The metadata of the type `name` in `schema`.
    fn lookup_type(&self, name: &str, schema: Option<&str>) -> (metadata: PgTypeMetadata)
        ensures
            self.answers(name@, schema_view(schema), metadata),
    ;
}

/// The metadata lookup of values that were not read from a connection: it
/// finds no type.
pub struct NoMetadataLookup;

impl PgMetadataLookupNonMut for NoMetadataLookup {
    open spec fn answers(&self, name: Seq<char>, schema: Option<Seq<char>>, metadata: PgTypeMetadata) -> bool {
        metadata.is_not_found(name, schema)
    }

    fn lookup_type(&self, name: &str, schema: Option<&str>) -> (metadata: PgTypeMetadata) {
        PgTypeMetadata::not_found(name, schema)
    }
}

/// Raw postgres value as received from the database: the bytes of the
/// value, a way to find out its type oid, and the lookup of type metadata
/// of the connection it was read from.
pub struct PgValue<'a, L: TypeOidLookup, M: PgMetadataLookupNonMut> {
    raw_value: &'a [u8],
    type_oid_lookup: &'a L,
    metadata_lookup: &'a M,
}

impl<'a, L: TypeOidLookup> PgValue<'a, L, NoMetadataLookup> {
    /// Create a new instance of `PgValue` based on a byte buffer
    /// and a way to receive information about the type of the value
    /// represented by the buffer
    ///
    /// Such a value was read from no connection: looking up a type
    /// through it finds nothing.
    pub fn new(raw_value: &'a [u8], type_oid_lookup: &'a L) -> (value: Self)
        ensures
            value.bytes() == raw_value@,
            value.oid_source() == *type_oid_lookup,
            value.metadata_source() == NoMetadataLookup,
    {
        PgValue { raw_value, type_oid_lookup, metadata_lookup: &NoMetadataLookup }
    }
}

impl<'a, L: TypeOidLookup, M: PgMetadataLookupNonMut> PgValue<'a, L, M> {
    /// The bytes of the value.
    pub closed spec fn bytes(&self) -> Seq<u8> {
        self.raw_value@
    }

    /// Where the type oid of the value is looked up.
    pub closed spec fn oid_source(&self) -> L {
        *self.type_oid_lookup
    }

    /// Where the value looks up type metadata.
    pub closed spec fn metadata_source(&self) -> M {
        *self.metadata_lookup
    }

    /// A value read from a connection, which looks up type metadata through
    /// `metadata_lookup`.
    pub(crate) fn new_internal(
        raw_value: &'a [u8],
        type_oid_lookup: &'a L,
        metadata_lookup: &'a M,
    ) -> (value: Self)
        ensures
            value.bytes() == raw_value@,
            value.oid_source() == *type_oid_lookup,
            value.metadata_source() == *metadata_lookup,
    {
        PgValue { raw_value, type_oid_lookup, metadata_lookup }
    }

    /// Get the underlying raw byte representation
    pub fn as_bytes(&self) -> (bytes: &'a [u8])
        ensures
            bytes@ == self.bytes(),
    {
        self.raw_value
    }

    /// Get the type oid of this value
    pub fn get_oid(&self) -> (oid: Oid)
        requires
            self.oid_source().lookup_ready(),
        ensures
            self.oid_source().yields_oid(oid),
    {
        self.type_oid_lookup.lookup()
    }

    /// The value made of the bytes in `range`, with the same type oid and
    /// the same lookup of type metadata.
    pub fn subslice(&self, range: Range<usize>) -> (value: Self)
        requires
            range.start <= range.end <= self.bytes().len(),
        ensures
            value.bytes() == self.bytes().subrange(range.start as int, range.end as int),
            value.oid_source() == self.oid_source(),
            value.metadata_source() == self.metadata_source(),
    {
        PgValue {
            raw_value: vstd::slice::slice_subrange(self.raw_value, range.start, range.end),
            type_oid_lookup: self.type_oid_lookup,
            metadata_lookup: self.metadata_lookup,
        }
    }
}

impl<'a, L: TypeOidLookup, M: PgMetadataLookupNonMut> PgMetadataLookup for PgValue<'a, L, M> {
    /// A value answers as the lookup it carries does.
    open spec fn answers(&self, name: Seq<char>, schema: Option<Seq<char>>, metadata: PgTypeMetadata) -> bool {
        self.metadata_source().answers(name, schema, metadata)
    }

    /// Asks the lookup the value carries, with the same name and schema.
    fn lookup_type(&mut self, name: &str, schema: Option<&str>) -> (metadata: PgTypeMetadata)
        ensures
            final(self).bytes() == old(self).bytes(),
            final(self).oid_source() == old(self).oid_source(),
            final(self).metadata_source() == old(self).metadata_source(),
    {
        self.metadata_lookup.lookup_type(name, schema)
    }
}

impl<'a, L: TypeOidLookup, M: PgMetadataLookupNonMut> TypeOidLookup for PgValue<'a, L, M> {
    open spec fn lookup_ready(&self) -> bool {
        self.oid_source().lookup_ready()
    }

    open spec fn yields_oid(&self, oid: Oid) -> bool {
        self.oid_source().yields_oid(oid)
    }

    fn lookup(&self) -> (oid: Oid) {
        self.get_oid()
    }
}

/// A value built on an oid has that oid: its lookup yields that oid and
/// nothing else.
pub proof fn lemma_value_on_oid_has_that_oid<'a, M: PgMetadataLookupNonMut>(
    value: PgValue<'a, Oid, M>,
    found: Oid,
)
    ensures
        value.lookup_ready(),
        value.yields_oid(found) <==> found == value.oid_source(),
{
}

/// Taking a subslice of a subslice is taking one subslice of the original
/// value: the inner range is read relative to the outer one. (By the
/// contract of [`PgValue::subslice`], both keep the value's oid.)
pub proof fn lemma_subslice_of_subslice<'a, L: TypeOidLookup, M: PgMetadataLookupNonMut>(
    value: PgValue<'a, L, M>,
    outer: Range<usize>,
    inner: Range<usize>,
)
    requires
        outer.start <= outer.end <= value.bytes().len(),
        inner.start <= inner.end <= outer.end - outer.start,
    ensures
        value.bytes().subrange(outer.start as int, outer.end as int).subrange(
            inner.start as int,
            inner.end as int,
        ) == value.bytes().subrange(outer.start + inner.start, outer.start + inner.end),
{
    assert(value.bytes().subrange(outer.start as int, outer.end as int).subrange(
        inner.start as int,
        inner.end as int,
    ) =~= value.bytes().subrange(outer.start + inner.start, outer.start + inner.end));
}

} // verus!
