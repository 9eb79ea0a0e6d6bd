//! Bridge rules: which boundary functions exist, and under which names.
//!
//! A rule ties one object type and one operation to the two foreign
//! interfaces. Under each interface the rule is exposed under a name derived
//! from the type and the operation, under a name given explicitly, or not at
//! all. Names are ASCII identifiers, held as bytes.

use vstd::prelude::*;
use vstd::string::StringSliceAdditionalSpecFns;

verus! {

/// How a rule is exposed under one foreign interface.
#[derive(Debug, PartialEq, Eq)]
pub enum Binding {
    /// Under the name derived from the type and the operation.
    Derived,
    /// Under this name in place of the derived one.
    Named(Vec<u8>),
    /// Not at all: no boundary function exists under this interface.
    Suppressed,
}

/// The operation that a rule exposes.
#[derive(Debug, PartialEq, Eq)]
pub enum Operation {
    /// Release the object behind a handle.
    Destroy,
    /// Build an object from bytes.
    Deserialize,
    /// Read bytes out of an object with the accessor of this name.
    GetByteArray(Vec<u8>),
}

/// One object type, one operation, and how each interface exposes them.
#[derive(Debug, PartialEq, Eq)]
pub struct BridgeRule {
    /// The object type's name, as written in the protocol library.
    pub object_type: Vec<u8>,
    pub operation: Operation,
    /// Exposure under the C interface.
    pub ffi: Binding,
    /// Exposure under the JVM interface.
    pub jni: Binding,
}

/// The ASCII underscore.
pub const UNDERSCORE: u8 = 95;

/// The ASCII letter `A`.
pub const CAPITAL_A: u8 = 65;

/// The ASCII letter `Z`.
pub const CAPITAL_Z: u8 = 90;

/// How far a small ASCII letter lies above its capital.
pub const CASE_GAP: u8 = 32;

/// Whether `b` is an ASCII capital letter.
pub open spec fn is_upper(b: u8) -> bool {
    CAPITAL_A <= b <= CAPITAL_Z
}

/// `b` with an ASCII capital letter turned into its small letter.
pub open spec fn lower(b: u8) -> u8 {
    if is_upper(b) {
        (b + CASE_GAP) as u8
    } else {
        b
    }
}

/// What position `i` of `name` contributes to its snake-case form: the
/// small letter, after an underscore where a capital letter follows anything
/// but an underscore.
pub open spec fn snake_piece(name: Seq<u8>, i: int) -> Seq<u8> {
    if is_upper(name[i]) && i > 0 && name[i - 1] != UNDERSCORE {
        seq![UNDERSCORE, lower(name[i])]
    } else {
        seq![lower(name[i])]
    }
}

/// The snake-case form of `name`: the contributions of its positions in
/// order.
pub open spec fn snake_case_spec(name: Seq<u8>) -> Seq<u8>
    decreases name.len(),
{
    if name.len() == 0 {
        Seq::empty()
    } else {
        snake_case_spec(name.drop_last()) + snake_piece(name, name.len() - 1)
    }
}

/// The snake-case form of `name`, as `snake_case_spec` defines it.
pub fn snake_case(name: &[u8]) -> (r: Vec<u8>)
    ensures
        r@ == snake_case_spec(name@),
{
    let mut out: Vec<u8> = Vec::new();
    let mut i: usize = 0;
    while i < name.len()
        invariant
            i <= name@.len(),
            out@ == snake_case_spec(name@.take(i as int)),
        decreases name@.len() - i,
    {
        let b: u8 = name[i];
        let upper: bool = CAPITAL_A <= b && b <= CAPITAL_Z;
        if upper && i > 0 && name[i - 1] != UNDERSCORE {
            out.push(UNDERSCORE);
        }
        out.push(if upper { b + CASE_GAP } else { b });
        proof {
            let next = name@.take(i + 1);
            assert(next.drop_last() =~= name@.take(i as int));
            assert(snake_piece(next, i as int) =~= snake_piece(name@, i as int));
            assert(out@ =~= snake_case_spec(next.drop_last()) + snake_piece(next, i as int));
        }
        i = i + 1;
    }
    proof {
        assert(name@.take(i as int) =~= name@);
    }
    out
}

impl Binding {
    /// The name that this binding exposes a rule under, where `derived` is
    /// the rule's derived name; `None` where the rule is suppressed.
    pub open spec fn name_spec(self, derived: Seq<u8>) -> Option<Seq<u8>> {
        match self {
            Binding::Derived => Some(derived),
            Binding::Named(n) => Some(n@),
            Binding::Suppressed => None,
        }
    }

    /// Whether a boundary function exists under this binding.
    pub fn is_exposed(&self) -> (b: bool)
        ensures
            b == !(*self is Suppressed),
    {
        match self {
            Binding::Suppressed => false,
            _ => true,
        }
    }
}

/// What every C symbol begins with.
pub open spec fn symbol_prefix() -> Seq<u8> {
    "signal_".spec_bytes()
}

impl Operation {
    /// What follows the binding name in the C symbol.
    pub open spec fn symbol_suffix(self) -> Seq<u8> {
        match self {
            Operation::Destroy => "_destroy".spec_bytes(),
            Operation::Deserialize => "_deserialize".spec_bytes(),
            Operation::GetByteArray(_) => Seq::empty(),
        }
    }
}

impl BridgeRule {
    /// The name that the rule is exposed under where no other is given: the
    /// type's name in snake case, and for a byte accessor an underscore and
    /// the accessor's name after it.
    pub open spec fn derived_name_spec(self) -> Seq<u8> {
        match self.operation {
            Operation::GetByteArray(accessor) => snake_case_spec(self.object_type@) + seq![
                UNDERSCORE,
            ] + accessor@,
            _ => snake_case_spec(self.object_type@),
        }
    }

    /// The symbol of the rule's C entry point: the prefix, the binding
    /// name and the operation's suffix; `None` where the rule is suppressed
    /// under the C interface.
    pub open spec fn ffi_symbol_spec(self) -> Option<Seq<u8>> {
        match self.ffi.name_spec(self.derived_name_spec()) {
            Some(name) => Some(symbol_prefix() + name + self.operation.symbol_suffix()),
            None => None,
        }
    }

    /// How many boundary functions the rule stands for: one for each
    /// interface that does not suppress it.
    pub open spec fn entry_points_spec(self) -> nat {
        let ffi: nat = if self.ffi is Suppressed { 0 } else { 1 };
        let jni: nat = if self.jni is Suppressed { 0 } else { 1 };
        ffi + jni
    }

    /// The rule's derived name.
    pub fn derived_name(&self) -> (r: Vec<u8>)
        ensures
            r@ == self.derived_name_spec(),
    {
        let mut name = snake_case(self.object_type.as_slice());
        match &self.operation {
            Operation::GetByteArray(accessor) => {
                name.push(UNDERSCORE);
                append(&mut name, accessor.as_slice());
            },
            _ => {},
        }
        name
    }

    /// The symbol of the rule's C entry point, or `None` where the C
    /// interface has none.
    pub fn ffi_symbol(&self) -> (r: Option<Vec<u8>>)
        ensures
            match self.ffi_symbol_spec() {
                Some(symbol) => r matches Some(v) && v@ == symbol,
                None => r is None,
            },
            r is None <==> self.ffi is Suppressed,
    {
        let name = match &self.ffi {
            Binding::Suppressed => {
                return None;
            },
            Binding::Named(n) => n.clone(),
            Binding::Derived => self.derived_name(),
        };
        let mut symbol: Vec<u8> = Vec::new();
        append(&mut symbol, "signal_".as_bytes());
        append(&mut symbol, name.as_slice());
        match &self.operation {
            Operation::Destroy => append(&mut symbol, "_destroy".as_bytes()),
            Operation::Deserialize => append(&mut symbol, "_deserialize".as_bytes()),
            Operation::GetByteArray(_) => {},
        }
        Some(symbol)
    }

    /// How many boundary functions the rule stands for.
    pub fn entry_points(&self) -> (n: usize)
        ensures
            n == self.entry_points_spec(),
            n <= 2,
    {
        let ffi: usize = if self.ffi.is_exposed() { 1 } else { 0 };
        let jni: usize = if self.jni.is_exposed() { 1 } else { 0 };
        ffi + jni
    }
}

/// Puts the bytes of `part` at the end of `out`.
fn append(out: &mut Vec<u8>, part: &[u8])
    ensures
        final(out)@ == old(out)@ + part@,
{
    let mut i: usize = 0;
    while i < part.len()
        invariant
            i <= part@.len(),
            out@ == old(out)@ + part@.take(i as int),
        decreases part@.len() - i,
    {
        out.push(part[i]);
        proof {
            assert(part@.take(i + 1) =~= part@.take(i as int).push(part@[i as int]));
        }
        i = i + 1;
    }
    proof {
        assert(part@.take(i as int) =~= part@);
    }
}

} // verus!
