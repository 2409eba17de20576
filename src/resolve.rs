//! The field resolver: maps each of the five fee roles to one field of an
//! instruction-context struct, by the field's name or by a marker on the field.
use vstd::prelude::*;

verus! {

/// The five accounts that a chargeable instruction must provide.
#[derive(Clone, Copy, Debug, PartialEq, Eq)]
pub enum Role {
    FeePayer,
    FeePayerAta,
    FeeIncineratorAta,
    FeeTokenAddress,
    TokenProgram,
}

/// The default field name of a role, which is also the name of its marker.
pub open spec fn role_name(role: Role) -> Seq<char> {
    match role {
        Role::FeePayer => "fee_payer"@,
        Role::FeePayerAta => "fee_payer_ata"@,
        Role::FeeIncineratorAta => "fee_incinerator_ata"@,
        Role::FeeTokenAddress => "fee_token_address"@,
        Role::TokenProgram => "token_program"@,
    }
}

/// The order in which roles are resolved, and so the order in which a missing
/// role is reported.
pub open spec fn role_rank(role: Role) -> int {
    match role {
        Role::FeePayer => 0,
        Role::FeePayerAta => 1,
        Role::FeeIncineratorAta => 2,
        Role::FeeTokenAddress => 3,
        Role::TokenProgram => 4,
    }
}

impl Role {
    /// The default field name of the role, also accepted as a marker.
    pub fn name(&self) -> (r: &'static str)
        ensures
            r@ == role_name(*self),
    {
        match self {
            Role::FeePayer => "fee_payer",
            Role::FeePayerAta => "fee_payer_ata",
            Role::FeeIncineratorAta => "fee_incinerator_ata",
            Role::FeeTokenAddress => "fee_token_address",
            Role::TokenProgram => "token_program",
        }
    }
}

/// A named field of a struct: its name and the names of the markers attached to it.
#[derive(Clone, Debug)]
pub struct FieldDecl {
    pub name: String,
    pub markers: Vec<String>,
}

/// The mathematical view of a field.
pub struct FieldView {
    pub name: Seq<char>,
    pub markers: Seq<Seq<char>>,
}

impl View for FieldDecl {
    type V = FieldView;

    open spec fn view(&self) -> FieldView {
        FieldView { name: self.name@, markers: self.markers@.map_values(|m: String| m@) }
    }
}

/// The views of a list of fields.
pub open spec fn field_views(fields: Seq<FieldDecl>) -> Seq<FieldView> {
    fields.map_values(|f: FieldDecl| f@)
}

/// The fields of a struct definition.
#[derive(Clone, Debug)]
pub enum StructFields {
    Named(Vec<FieldDecl>),
    Unnamed,
    Unit,
}

/// Why a struct cannot be charged.
#[derive(Clone, Copy, Debug, PartialEq, Eq)]
pub enum ResolveError {
    /// The struct has positional fields or none.
    NotNamedFields,
    /// No field is named after the role or carries its marker.
    MissingField(Role),
}

/// For each role, the position of the field that plays it.
#[derive(Clone, Copy, Debug, PartialEq, Eq)]
pub struct FeeFields {
    pub fee_payer: usize,
    pub fee_payer_ata: usize,
    pub fee_incinerator_ata: usize,
    pub fee_token_address: usize,
    pub token_program: usize,
}

/// The position that `fields` gives to `role`.
pub open spec fn field_of(fields: FeeFields, role: Role) -> usize {
    match role {
        Role::FeePayer => fields.fee_payer,
        Role::FeePayerAta => fields.fee_payer_ata,
        Role::FeeIncineratorAta => fields.fee_incinerator_ata,
        Role::FeeTokenAddress => fields.fee_token_address,
        Role::TokenProgram => fields.token_program,
    }
}

impl FeeFields {
    /// The position of the field that plays `role`.
    pub fn field(&self, role: Role) -> (r: usize)
        ensures
            r == field_of(*self, role),
    {
        match role {
            Role::FeePayer => self.fee_payer,
            Role::FeePayerAta => self.fee_payer_ata,
            Role::FeeIncineratorAta => self.fee_incinerator_ata,
            Role::FeeTokenAddress => self.fee_token_address,
            Role::TokenProgram => self.token_program,
        }
    }
}

/// The field carries a marker called `name`.
pub open spec fn has_marker(field: FieldView, name: Seq<char>) -> bool {
    exists|j: int| 0 <= j < field.markers.len() && field.markers[j] == name
}

/// Some field is called `name`.
pub open spec fn named_as(fields: Seq<FieldView>, name: Seq<char>) -> bool {
    exists|i: int| 0 <= i < fields.len() && fields[i].name == name
}

/// Some field carries a marker called `name`.
pub open spec fn marked_as(fields: Seq<FieldView>, name: Seq<char>) -> bool {
    exists|i: int| 0 <= i < fields.len() && has_marker(fields[i], name)
}

/// Some field can play the role called `name`.
pub open spec fn resolvable(fields: Seq<FieldView>, name: Seq<char>) -> bool {
    named_as(fields, name) || marked_as(fields, name)
}

/// Field `i` is the one chosen for `name`: the first field with that name, or,
/// when no field has it, the first field with that marker.
pub open spec fn selects(fields: Seq<FieldView>, name: Seq<char>, i: int) -> bool {
    &&& 0 <= i < fields.len()
    &&& if named_as(fields, name) {
        &&& fields[i].name == name
        &&& forall|j: int| 0 <= j < i ==> fields[j].name != name
    } else {
        &&& has_marker(fields[i], name)
        &&& forall|j: int| 0 <= j < i ==> !has_marker(fields[j], name)
    }
}

/// `r` is the outcome of resolving the roles over the named fields `fields`:
/// every role mapped to its chosen field, or the first role, in resolution
/// order, that no field can play.
pub open spec fn resolution(fields: Seq<FieldView>, r: Result<FeeFields, ResolveError>) -> bool {
    match r {
        Ok(m) => forall|role: Role| #[trigger] selects(fields, role_name(role), field_of(m, role) as int),
        Err(ResolveError::MissingField(missing)) => {
            &&& !resolvable(fields, role_name(missing))
            &&& forall|role: Role|
                role_rank(role) < role_rank(missing) ==> #[trigger] resolvable(fields, role_name(role))
        },
        Err(ResolveError::NotNamedFields) => false,
    }
}

/// Whether `field` carries a marker called `name`.
fn carries_marker(field: &FieldDecl, name: &String) -> (r: bool)
    ensures
        r == has_marker(field@, name@),
{
    let mut j: usize = 0;
    while j < field.markers.len()
        invariant
            j <= field.markers.len(),
            forall|k: int| 0 <= k < j ==> field@.markers[k] != name@,
        decreases field.markers.len() - j,
    {
        if field.markers[j] == *name {
            assert(field@.markers[j as int] == name@);
            return true;
        }
        j = j + 1;
    }
    false
}

/// The position of the field that plays `role`: the first field named after
/// it, else the first field that carries its marker.
pub fn get_field(role: Role, fields: &Vec<FieldDecl>) -> (r: Result<usize, ResolveError>)
    ensures
        r is Ok <==> resolvable(field_views(fields@), role_name(role)),
        r matches Ok(i) ==> selects(field_views(fields@), role_name(role), i as int),
        r matches Err(e) ==> e == ResolveError::MissingField(role),
{
    let ghost views = field_views(fields@);
    let name = role.name().to_owned();
    let mut i: usize = 0;
    while i < fields.len()
        invariant
            i <= fields.len(),
            views == field_views(fields@),
            name@ == role_name(role),
            forall|j: int| 0 <= j < i ==> views[j].name != name@,
        decreases fields.len() - i,
    {
        if fields[i].name == name {
            assert(views[i as int].name == name@);
            return Ok(i);
        }
        i = i + 1;
    }
    assert(!named_as(views, name@));
    let mut i: usize = 0;
    while i < fields.len()
        invariant
            i <= fields.len(),
            views == field_views(fields@),
            name@ == role_name(role),
            !named_as(views, name@),
            forall|j: int| 0 <= j < i ==> !has_marker(views[j], name@),
        decreases fields.len() - i,
    {
        if carries_marker(&fields[i], &name) {
            assert(has_marker(views[i as int], name@));
            return Ok(i);
        }
        i = i + 1;
    }
    Err(ResolveError::MissingField(role))
}

/// Maps every role to its field, failing on a struct without named fields or on
/// the first role that no field can play.
pub fn impl_chargeable(fields: &StructFields) -> (r: Result<FeeFields, ResolveError>)
    ensures
        match *fields {
            StructFields::Named(v) => resolution(field_views(v@), r),
            _ => r == Err::<FeeFields, ResolveError>(ResolveError::NotNamedFields),
        },
{
    match fields {
        StructFields::Named(v) => {
            let fee_payer = match get_field(Role::FeePayer, v) {
                Ok(i) => i,
                Err(e) => return Err(e),
            };
            let fee_payer_ata = match get_field(Role::FeePayerAta, v) {
                Ok(i) => i,
                Err(e) => return Err(e),
            };
            let fee_incinerator_ata = match get_field(Role::FeeIncineratorAta, v) {
                Ok(i) => i,
                Err(e) => return Err(e),
            };
            let fee_token_address = match get_field(Role::FeeTokenAddress, v) {
                Ok(i) => i,
                Err(e) => return Err(e),
            };
            let token_program = match get_field(Role::TokenProgram, v) {
                Ok(i) => i,
                Err(e) => return Err(e),
            };
            let m = FeeFields {
                fee_payer,
                fee_payer_ata,
                fee_incinerator_ata,
                fee_token_address,
                token_program,
            };
            assert forall|role: Role|
                #[trigger] selects(field_views(v@), role_name(role), field_of(m, role) as int) by {
                match role {
                    Role::FeePayer => {},
                    Role::FeePayerAta => {},
                    Role::FeeIncineratorAta => {},
                    Role::FeeTokenAddress => {},
                    Role::TokenProgram => {},
                }
            }
            Ok(m)
        },
        _ => Err(ResolveError::NotNamedFields),
    }
}

/// A struct whose fields carry all five default names resolves, and every role
/// goes to the field of that name.
pub proof fn default_names_resolve(fields: Seq<FieldView>, r: Result<FeeFields, ResolveError>)
    requires
        forall|role: Role| #[trigger] named_as(fields, role_name(role)),
        resolution(fields, r),
    ensures
        r is Ok,
        r matches Ok(m) ==> forall|role: Role|
            #[trigger] fields[field_of(m, role) as int].name == role_name(role),
{
    match r {
        Ok(m) => {
            assert forall|role: Role| #[trigger]
                fields[field_of(m, role) as int].name == role_name(role) by {
                assert(selects(fields, role_name(role), field_of(m, role) as int));
            }
        },
        Err(ResolveError::MissingField(missing)) => {
            assert(named_as(fields, role_name(missing)));
        },
        Err(ResolveError::NotNamedFields) => {},
    }
}

/// A role whose default name no field has, but whose marker the field at `k`
/// carries, resolves to a marked field no later than `k`, and to `k` itself when
/// no other field carries the marker; the struct still resolves when every other
/// role has its default name.
pub proof fn marker_resolves(
    fields: Seq<FieldView>,
    target: Role,
    k: int,
    r: Result<FeeFields, ResolveError>,
)
    requires
        forall|role: Role| role != target ==> #[trigger] named_as(fields, role_name(role)),
        !named_as(fields, role_name(target)),
        0 <= k < fields.len(),
        has_marker(fields[k], role_name(target)),
        resolution(fields, r),
    ensures
        r is Ok,
        r matches Ok(m) ==> {
            &&& has_marker(fields[field_of(m, target) as int], role_name(target))
            &&& field_of(m, target) <= k
            &&& (forall|j: int| 0 <= j < fields.len() && j != k
                ==> !has_marker(#[trigger] fields[j], role_name(target)))
                ==> field_of(m, target) == k
        },
{
    match r {
        Ok(m) => {
            let i = field_of(m, target) as int;
            assert(selects(fields, role_name(target), i));
            if k < i {
                assert(!has_marker(fields[k], role_name(target)));
            }
        },
        Err(ResolveError::MissingField(missing)) => {
            if missing == target {
                assert(marked_as(fields, role_name(target)));
            } else {
                assert(named_as(fields, role_name(missing)));
            }
        },
        Err(ResolveError::NotNamedFields) => {},
    }
}

/// A struct on which no field can play `target` fails to resolve, naming a
/// role that no field can play and that comes no later than `target`; when
/// `target` is the only such role, the error names it.
pub proof fn missing_role_fails(fields: Seq<FieldView>, target: Role, r: Result<FeeFields, ResolveError>)
    requires
        !resolvable(fields, role_name(target)),
        resolution(fields, r),
    ensures
        r matches Err(ResolveError::MissingField(missing)) && {
            &&& !resolvable(fields, role_name(missing))
            &&& role_rank(missing) <= role_rank(target)
            &&& (forall|role: Role| role != target ==> #[trigger] resolvable(fields, role_name(role)))
                ==> missing == target
        },
{
    match r {
        Ok(m) => {
            assert(selects(fields, role_name(target), field_of(m, target) as int));
            let i = field_of(m, target) as int;
            if named_as(fields, role_name(target)) {
            } else {
                assert(has_marker(fields[i], role_name(target)));
            }
        },
        Err(ResolveError::MissingField(missing)) => {
            if role_rank(target) < role_rank(missing) {
                assert(resolvable(fields, role_name(target)));
            }
        },
        Err(ResolveError::NotNamedFields) => {},
    }
}

} // verus!
