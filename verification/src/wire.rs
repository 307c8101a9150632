//! A garlic address as an object of the wire protocol.
//!
//! On the wire an object is an ordered list of fields, each a name and a
//! typed value. An address has exactly two: `destination`, the 32 bytes of
//! the digest, and `port`, an unsigned 16-bit number, in this order. Reading
//! takes the fields in any order and accepts nothing but these two, once
//! each and of the right type: a field that is missing, unknown, repeated or
//! mistyped is an error, never a default.
//!
//! How names and values are laid out in bytes is not decided here.

use vstd::prelude::*;
use vstd::slice::slice_to_vec;
use vstd::string::*;
use crate::garlic_addr::{GarlicAddr, GarlicAddrView};
use crate::text::{chars_of, digest_of};

verus! {

/// A typed value of the wire protocol.
#[derive(Clone, Debug, PartialEq, Eq)]
pub enum WireValue {
    /// A byte string.
    Bytes(Vec<u8>),
    /// An unsigned 16-bit number.
    U16(u16),
    /// A value of a type that no field of an address has.
    Other,
}

/// What a [`WireValue`] stands for.
pub enum WireValueView {
    Bytes(Seq<u8>),
    U16(u16),
    Other,
}

impl View for WireValue {
    type V = WireValueView;

    open spec fn view(&self) -> WireValueView {
        match self {
            WireValue::Bytes(bytes) => WireValueView::Bytes(bytes@),
            WireValue::U16(number) => WireValueView::U16(*number),
            WireValue::Other => WireValueView::Other,
        }
    }
}

/// A field of an object: a name and a value.
#[derive(Clone, Debug, PartialEq, Eq)]
pub struct WireField {
    pub name: String,
    pub value: WireValue,
}

/// What a [`WireField`] stands for.
pub struct WireFieldView {
    pub name: Seq<char>,
    pub value: WireValueView,
}

impl View for WireField {
    type V = WireFieldView;

    open spec fn view(&self) -> WireFieldView {
        WireFieldView { name: self.name@, value: self.value@ }
    }
}

/// What a list of fields stands for.
pub open spec fn views_of(fields: Seq<WireField>) -> Seq<WireFieldView> {
    Seq::new(fields.len(), |i: int| fields[i]@)
}

/// Why a list of fields is not an address.
#[derive(Clone, Copy, Debug, PartialEq, Eq, Structural)]
pub enum WireError {
    /// A field has a name that an address does not have.
    UnknownField,
    /// A field has a value of another type than its name asks for.
    WrongType,
    /// The destination is not 32 bytes long.
    WrongLength,
    /// A field occurs a second time.
    DuplicateField,
    /// The list ends and a field has not occurred.
    MissingField,
}

/// The name of the field that holds the digest.
pub open spec fn destination_name() -> Seq<char> {
    "destination"@
}

/// The name of the field that holds the port.
pub open spec fn port_name() -> Seq<char> {
    "port"@
}

/// The fields of an address, as they are written.
pub open spec fn wire_fields(addr: GarlicAddrView) -> Seq<WireFieldView> {
    seq![
        WireFieldView { name: destination_name(), value: WireValueView::Bytes(addr.destination) },
        WireFieldView { name: port_name(), value: WireValueView::U16(addr.port) },
    ]
}

/// The types that the fields of an address have.
#[derive(Clone, Copy, Debug, PartialEq, Eq, Structural)]
pub enum WireType {
    /// A byte string.
    Bytes,
    /// An unsigned 16-bit number.
    U16,
}

/// The type that a field of this name has, where an address has a field of
/// this name.
pub open spec fn expected_type(name: Seq<char>) -> Option<WireType> {
    if name == destination_name() {
        Some(WireType::Bytes)
    } else if name == port_name() {
        Some(WireType::U16)
    } else {
        None
    }
}

/// The fields of an address that have been read so far.
pub struct BuilderView {
    pub destination: Option<Seq<u8>>,
    pub port: Option<u16>,
}

/// What taking in one more field makes of the fields read so far.
///
/// The name is looked at first, then the type of the value, then, for the
/// destination, its length, and last whether the field has occurred before.
pub open spec fn add_field_spec(
    builder: BuilderView,
    name: Seq<char>,
    value: WireValueView,
) -> Result<BuilderView, WireError> {
    match (expected_type(name), value) {
        (None, _) => Err(WireError::UnknownField),
        (Some(WireType::Bytes), WireValueView::Bytes(bytes)) => if bytes.len() != 32 {
            Err(WireError::WrongLength)
        } else if builder.destination is Some {
            Err(WireError::DuplicateField)
        } else {
            Ok(BuilderView { destination: Some(bytes), port: builder.port })
        },
        (Some(WireType::U16), WireValueView::U16(port)) => if builder.port is Some {
            Err(WireError::DuplicateField)
        } else {
            Ok(BuilderView { destination: builder.destination, port: Some(port) })
        },
        _ => Err(WireError::WrongType),
    }
}

/// The address that the fields read so far make up, once both are there.
pub open spec fn finish_spec(builder: BuilderView) -> Result<GarlicAddrView, WireError> {
    match (builder.destination, builder.port) {
        (Some(destination), Some(port)) => Ok(GarlicAddrView { destination, port }),
        _ => Err(WireError::MissingField),
    }
}

/// What the fields read so far and those still to come read as: the first
/// field that cannot be taken in decides the error.
pub open spec fn read_fields_from(builder: BuilderView, fields: Seq<WireFieldView>) -> Result<
    GarlicAddrView,
    WireError,
>
    decreases fields.len(),
{
    if fields.len() == 0 {
        finish_spec(builder)
    } else {
        match add_field_spec(builder, fields[0].name, fields[0].value) {
            Err(error) => Err(error),
            Ok(next) => read_fields_from(next, fields.drop_first()),
        }
    }
}

/// What a list of fields reads as.
pub open spec fn read_fields_spec(fields: Seq<WireFieldView>) -> Result<GarlicAddrView, WireError> {
    read_fields_from(BuilderView { destination: None, port: None }, fields)
}

/// The two field names differ.
pub proof fn field_names_differ()
    ensures
        destination_name() != port_name(),
{
    reveal_strlit("destination");
    reveal_strlit("port");
    assert(destination_name().len() == 11);
    assert(port_name().len() == 4);
}

/// Writing an address and reading the fields back gives the address: for
/// every 32-byte digest and every port.
pub proof fn wire_roundtrip(addr: GarlicAddrView)
    requires
        addr.well_formed(),
    ensures
        read_fields_spec(wire_fields(addr)) == Ok::<GarlicAddrView, WireError>(addr),
{
    field_names_differ();
    let fields = wire_fields(addr);
    let empty = BuilderView { destination: None, port: None };
    let first = BuilderView { destination: Some(addr.destination), port: None };
    let both = BuilderView { destination: Some(addr.destination), port: Some(addr.port) };
    let rest = fields.drop_first();
    assert(add_field_spec(empty, fields[0].name, fields[0].value) == Ok::<BuilderView, WireError>(
        first,
    ));
    assert(rest.len() == 1);
    assert(rest[0] == fields[1]);
    assert(add_field_spec(first, rest[0].name, rest[0].value) == Ok::<BuilderView, WireError>(
        both,
    ));
    assert(rest.drop_first().len() == 0);
    assert(read_fields_from(both, rest.drop_first()) == Ok::<GarlicAddrView, WireError>(addr));
    assert(read_fields_from(first, rest) == Ok::<GarlicAddrView, WireError>(addr));
}

/// A list of fields that reads as an address holds the two fields of that
/// address and nothing else; only their order is free.
pub proof fn reading_accepts_only_the_two_fields(fields: Seq<WireFieldView>, addr: GarlicAddrView)
    requires
        read_fields_spec(fields) == Ok::<GarlicAddrView, WireError>(addr),
    ensures
        addr.well_formed(),
        fields == wire_fields(addr) || fields == wire_fields(addr).reverse(),
{
    field_names_differ();
    reveal_with_fuel(read_fields_from, 4);
    let empty = BuilderView { destination: None, port: None };
    assert(fields.len() >= 2);
    let rest = fields.drop_first();
    let last = rest.drop_first();
    let one = add_field_spec(empty, fields[0].name, fields[0].value);
    assert(one is Ok);
    let two = add_field_spec(one->Ok_0, rest[0].name, rest[0].value);
    assert(two is Ok);
    if last.len() > 0 {
        assert(add_field_spec(two->Ok_0, last[0].name, last[0].value) is Err);
    }
    assert(fields.len() == 2);
    assert(fields[1] == rest[0]);
    if fields[0].name == destination_name() {
        assert(fields =~= wire_fields(addr));
    } else {
        assert(fields =~= wire_fields(addr).reverse());
    }
}

/// Takes in the fields of an address one by one.
pub struct GarlicAddrBuilder {
    destination: Option<[u8; 32]>,
    port: Option<u16>,
}

impl View for GarlicAddrBuilder {
    type V = BuilderView;

    closed spec fn view(&self) -> BuilderView {
        BuilderView {
            destination: match self.destination {
                Some(digest) => Some(digest@),
                None => None,
            },
            port: self.port,
        }
    }
}

impl Default for GarlicAddrBuilder {
    /// A builder that has read nothing.
    fn default() -> (builder: Self)
        ensures
            builder@ == (BuilderView { destination: None, port: None }),
    {
        GarlicAddrBuilder { destination: None, port: None }
    }
}

/// Says which type the field of this name has, so that a reader knows what
/// to read behind the name; `None` where an address has no such field.
pub fn field_type(name: &str) -> (expected: Option<WireType>)
    ensures
        expected == expected_type(name@),
{
    if same_text(name, "destination") {
        Some(WireType::Bytes)
    } else if same_text(name, "port") {
        Some(WireType::U16)
    } else {
        None
    }
}

impl GarlicAddrBuilder {
    /// Takes in one field. Where the field is refused, the builder stays as
    /// it was.
    pub fn add_field(&mut self, name: &str, value: &WireValue) -> (outcome: Result<(), WireError>)
        ensures
            match outcome {
                Ok(()) => add_field_spec(old(self)@, name@, value@) == Ok::<
                    BuilderView,
                    WireError,
                >(final(self)@),
                Err(error) => add_field_spec(old(self)@, name@, value@) == Err::<
                    BuilderView,
                    WireError,
                >(error) && final(self)@ == old(self)@,
            },
    {
        match (field_type(name), value) {
            (None, _) => Err(WireError::UnknownField),
            (Some(WireType::Bytes), WireValue::Bytes(bytes)) => {
                if bytes.len() != 32 {
                    Err(WireError::WrongLength)
                } else if self.destination.is_some() {
                    Err(WireError::DuplicateField)
                } else {
                    self.destination = Some(digest_of(bytes));
                    Ok(())
                }
            },
            (Some(WireType::U16), WireValue::U16(port)) => {
                if self.port.is_some() {
                    Err(WireError::DuplicateField)
                } else {
                    self.port = Some(*port);
                    Ok(())
                }
            },
            _ => Err(WireError::WrongType),
        }
    }

    /// Makes the address out of the fields taken in.
    pub fn finish(self) -> (outcome: Result<GarlicAddr, WireError>)
        ensures
            match outcome {
                Ok(addr) => finish_spec(self@) == Ok::<GarlicAddrView, WireError>(addr@),
                Err(error) => finish_spec(self@) == Err::<GarlicAddrView, WireError>(error),
            },
    {
        match (self.destination, self.port) {
            (Some(destination), Some(port)) => Ok(GarlicAddr::new(destination, port)),
            _ => Err(WireError::MissingField),
        }
    }
}

impl GarlicAddr {
    /// The number of fields of an address on the wire.
    pub fn number_of_fields(&self) -> (count: u64)
        ensures
            count == 2,
            count == wire_fields(self@).len(),
    {
        2
    }

    /// The fields of the address, in the order in which they are written.
    pub fn write_fields(&self) -> (fields: Vec<WireField>)
        ensures
            views_of(fields@) == wire_fields(self@),
    {
        let digest = self.destination();
        let mut fields: Vec<WireField> = Vec::new();
        fields.push(
            WireField {
                name: String::from_str("destination"),
                value: WireValue::Bytes(slice_to_vec(digest.as_slice())),
            },
        );
        fields.push(WireField { name: String::from_str("port"), value: WireValue::U16(self.port()) });
        assert(views_of(fields@) =~= wire_fields(self@));
        fields
    }

    /// Reads an address from the fields of an object.
    pub fn read_fields(fields: &Vec<WireField>) -> (outcome: Result<GarlicAddr, WireError>)
        ensures
            match outcome {
                Ok(addr) => read_fields_spec(views_of(fields@)) == Ok::<GarlicAddrView, WireError>(
                    addr@,
                ),
                Err(error) => read_fields_spec(views_of(fields@)) == Err::<
                    GarlicAddrView,
                    WireError,
                >(error),
            },
    {
        let ghost all = views_of(fields@);
        let mut builder = GarlicAddrBuilder::default();
        let mut i: usize = 0;
        assert(all.skip(0) =~= all);
        while i < fields.len()
            invariant
                i <= fields.len(),
                all == views_of(fields@),
                read_fields_from(builder@, all.skip(i as int)) == read_fields_spec(all),
            decreases fields.len() - i,
        {
            let field = &fields[i];
            let ghost rest = all.skip(i as int);
            assert(rest[0] == field@);
            assert(rest.drop_first() =~= all.skip(i + 1));
            match builder.add_field(field.name.as_str(), &field.value) {
                Ok(()) => {},
                Err(error) => {
                    return Err(error);
                },
            }
            i = i + 1;
        }
        assert(all.skip(i as int).len() == 0);
        builder.finish()
    }
}

/// Whether two texts are the same.
fn same_text(a: &str, b: &str) -> (same: bool)
    ensures
        same == (a@ == b@),
{
    let left = chars_of(a);
    let right = chars_of(b);
    if left.len() != right.len() {
        return false;
    }
    let mut i: usize = 0;
    while i < left.len()
        invariant
            i <= left.len(),
            left.len() == right.len(),
            left@ == a@,
            right@ == b@,
            forall|j: int| 0 <= j < i ==> left@[j] == right@[j],
        decreases left.len() - i,
    {
        if left[i] != right[i] {
            return false;
        }
        i = i + 1;
    }
    assert(left@ =~= right@);
    true
}

} // verus!
