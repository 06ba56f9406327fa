//! The circuit statements: where a circuit finds its inputs and which of its
//! values it shares with the other circuit.
//!
//! Reading the files and synthesizing the constraints is the caller's work. What
//! is decided here is which file is read, and what a circuit makes of it.

use crate::backend::{little_endian_value, ScalarBytes};
use crate::circuit::CircuitKind;
use crate::error::{ErrorKind, ZkProofError};
use crate::inputs::{scalar_input, spec_decimal_value, spec_first_number, InputField};
use crate::protocol::BackendFailure;
use crate::wtns::{parse_witness, spec_parse_witness, WitnessFileError};
use vstd::prelude::*;
use vstd::string::*;

verus! {

/// The index of the first `true`, if there is one.
pub open spec fn spec_first_existing(exists: Seq<bool>) -> Option<nat>
    decreases exists.len(),
{
    if exists.len() == 0 {
        None
    } else if exists[0] {
        Some(0)
    } else {
        match spec_first_existing(exists.drop_first()) {
            Some(i) => Some(i + 1),
            None => None,
        }
    }
}

/// What the first existing candidate is: it exists, nothing before it does, and
/// there is none exactly when no candidate exists.
pub proof fn lemma_first_existing(exists: Seq<bool>)
    ensures
        match spec_first_existing(exists) {
            Some(i) => i < exists.len() && exists[i as int] && forall|j: int|
                0 <= j < i ==> !exists[j],
            None => forall|j: int| 0 <= j < exists.len() ==> !exists[j],
        },
    decreases exists.len(),
{
    if exists.len() > 0 && !exists[0] {
        let rest = exists.drop_first();
        lemma_first_existing(rest);
        match spec_first_existing(rest) {
            Some(i) => {
                assert forall|j: int| 0 <= j < i + 1 implies !exists[j] by {
                    if j > 0 {
                        assert(exists[j] == rest[j - 1]);
                    }
                }
            },
            None => {
                assert forall|j: int| 0 <= j < exists.len() implies !exists[j] by {
                    if j > 0 {
                        assert(exists[j] == rest[j - 1]);
                    }
                }
            },
        }
    }
}

/// Picks among the places where an input may lie, given for each whether a file
/// exists there: the first that exists wins.
pub fn first_existing(exists: &Vec<bool>) -> (chosen: Option<usize>)
    ensures
        match chosen {
            Some(i) => spec_first_existing(exists@) == Some(i as nat),
            None => spec_first_existing(exists@) is None,
        },
        match chosen {
            Some(i) => i < exists@.len() && exists@[i as int] && forall|j: int|
                0 <= j < i ==> !exists@[j],
            None => forall|j: int| 0 <= j < exists@.len() ==> !exists@[j],
        },
{
    let mut i: usize = 0;
    while i < exists.len()
        invariant
            i <= exists.len(),
            forall|j: int| 0 <= j < i ==> !exists@[j],
        decreases exists.len() - i,
    {
        if exists[i] {
            proof {
                lemma_first_existing(exists@);
            }
            return Some(i);
        }
        i += 1;
    }
    proof {
        lemma_first_existing(exists@);
    }
    None
}

/// The message of the failure that is reported when no candidate exists.
pub open spec fn spec_no_input_message(what: Seq<char>) -> Seq<char> {
    "No "@ + what + " was found in any of the places that are tried"@
}

/// Resolves an input among its candidates: the first candidate for which a file
/// exists, or `InputNotFound` if there is none. `what` names the input in the
/// failure's message.
pub fn resolve_input(
    candidates: Vec<String>,
    exists: &Vec<bool>,
    what: &str,
) -> (resolved: Result<String, BackendFailure>)
    requires
        candidates@.len() == exists@.len(),
    ensures
        match resolved {
            Ok(path) => spec_first_existing(exists@) is Some && path
                == candidates@[spec_first_existing(exists@).unwrap() as int],
            Err(failure) => spec_first_existing(exists@) is None && failure.spec_report() == (
                ErrorKind::FileNotFound,
                spec_no_input_message(what@),
            ),
        },
{
    let mut candidates = candidates;
    match first_existing(exists) {
        Some(i) => Ok(candidates.swap_remove(i)),
        None => {
            let mut reason = String::from_str("No ");
            reason.append(what);
            reason.append(" was found in any of the places that are tried");
            Err(BackendFailure::InputNotFound { reason })
        },
    }
}

/// A place in the package: the package's root, a slash, and the way from there.
pub open spec fn spec_packaged(package_root: Seq<char>, way: Seq<char>) -> Seq<char> {
    package_root + "/"@ + way
}

/// The way from the package's root to the input document that is packaged for a
/// circuit.
pub open spec fn spec_packaged_input(kind: CircuitKind) -> Seq<char> {
    match kind {
        CircuitKind::Prepare => "../circom/inputs/jwt/default.json"@,
        CircuitKind::Show => "../circom/inputs/show/default.json"@,
    }
}

/// The way from the package's root to the constraints that are packaged for a
/// circuit.
pub open spec fn spec_packaged_constraints(kind: CircuitKind) -> Seq<char> {
    match kind {
        CircuitKind::Prepare => "../circom/build/jwt/jwt_js/jwt.r1cs"@,
        CircuitKind::Show => "../circom/build/show/show_js/show.r1cs"@,
    }
}

/// The place of a circuit's input document below the working directory.
pub open spec fn spec_local_input(kind: CircuitKind) -> Seq<char> {
    match kind {
        CircuitKind::Prepare => "circom/jwt_input.json"@,
        CircuitKind::Show => "circom/show_input.json"@,
    }
}

/// The place of a circuit's constraints below the working directory.
pub open spec fn spec_local_constraints(kind: CircuitKind) -> Seq<char> {
    match kind {
        CircuitKind::Prepare => "circom/jwt.r1cs"@,
        CircuitKind::Show => "circom/show.r1cs"@,
    }
}

/// Where the input document of a circuit lies when the caller names no place:
/// first below the working directory, then in the package, whose root is
/// `package_root`.
pub open spec fn spec_input_defaults(kind: CircuitKind, package_root: Seq<char>) -> Seq<Seq<char>> {
    seq![spec_local_input(kind), spec_packaged(package_root, spec_packaged_input(kind))]
}

/// The places where the input document of a circuit is looked for, in order: the
/// place that the caller named, if any, then the defaults.
pub open spec fn spec_input_candidates(
    kind: CircuitKind,
    input_path: Option<String>,
    package_root: Seq<char>,
) -> Seq<Seq<char>> {
    match input_path {
        Some(path) => seq![path@] + spec_input_defaults(kind, package_root),
        None => spec_input_defaults(kind, package_root),
    }
}

/// Where the constraints of a circuit lie: first below the working directory,
/// then in the package, whose root is `package_root`.
pub open spec fn spec_constraints_candidates(
    kind: CircuitKind,
    package_root: Seq<char>,
) -> Seq<Seq<char>> {
    seq![
        spec_local_constraints(kind),
        spec_packaged(package_root, spec_packaged_constraints(kind)),
    ]
}

/// The views of a sequence of texts.
pub open spec fn spec_texts(texts: Seq<String>) -> Seq<Seq<char>> {
    texts.map_values(|t: String| t@)
}

/// A place in the package.
fn packaged(package_root: &str, way: &str) -> (place: String)
    ensures
        place@ == spec_packaged(package_root@, way@),
{
    let mut place = String::from_str(package_root);
    place.append("/");
    place.append(way);
    place
}

/// The places where the input document of a circuit is looked for, in order: the
/// place that the caller named, then the working directory, then the package.
/// The packaged document does not move with the working directory: its place
/// is resolved against `package_root`.
pub fn input_candidates(
    kind: CircuitKind,
    input_path: &Option<String>,
    package_root: &str,
) -> (candidates: Vec<String>)
    ensures
        spec_texts(candidates@) == spec_input_candidates(kind, *input_path, package_root@),
{
    let mut candidates: Vec<String> = Vec::new();
    match input_path {
        Some(path) => {
            candidates.push(path.clone());
        },
        None => {},
    }
    match kind {
        CircuitKind::Prepare => {
            candidates.push(String::from_str("circom/jwt_input.json"));
            candidates.push(packaged(package_root, "../circom/inputs/jwt/default.json"));
        },
        CircuitKind::Show => {
            candidates.push(String::from_str("circom/show_input.json"));
            candidates.push(packaged(package_root, "../circom/inputs/show/default.json"));
        },
    }
    assert(spec_texts(candidates@) =~= spec_input_candidates(kind, *input_path, package_root@));
    candidates
}

/// The places where the constraints of a circuit are looked for, in order: the
/// working directory, then the package, whose root is `package_root`.
pub fn constraints_candidates(kind: CircuitKind, package_root: &str) -> (candidates: Vec<String>)
    ensures
        spec_texts(candidates@) == spec_constraints_candidates(kind, package_root@),
{
    let mut candidates: Vec<String> = Vec::new();
    match kind {
        CircuitKind::Prepare => {
            candidates.push(String::from_str("circom/jwt.r1cs"));
            candidates.push(packaged(package_root, "../circom/build/jwt/jwt_js/jwt.r1cs"));
        },
        CircuitKind::Show => {
            candidates.push(String::from_str("circom/show.r1cs"));
            candidates.push(packaged(package_root, "../circom/build/show/show_js/show.r1cs"));
        },
    }
    assert(spec_texts(candidates@) =~= spec_constraints_candidates(kind, package_root@));
    candidates
}

/// The shared values in the order in which both circuits commit to them: the two
/// coordinates of the device key, x first.
pub fn shared_values(
    device_key_x: ScalarBytes,
    device_key_y: ScalarBytes,
) -> (values: Vec<ScalarBytes>)
    ensures
        values@ == seq![device_key_x, device_key_y],
{
    let mut values: Vec<ScalarBytes> = Vec::new();
    values.push(device_key_x);
    values.push(device_key_y);
    assert(values@ =~= seq![device_key_x, device_key_y]);
    values
}

/// What reading the shared values from an input document owes its caller: both
/// coordinates of the device key as the document gives them, or the failure of
/// the first that cannot be read.
pub open spec fn spec_shared_from_inputs(
    fields: Seq<InputField>,
    values: Result<Vec<ScalarBytes>, BackendFailure>,
) -> bool {
    let x = spec_first_number(fields, "deviceKeyX"@);
    let y = spec_first_number(fields, "deviceKeyY"@);
    match values {
        Ok(values) => {
            &&& x is Ok
            &&& y is Ok
            &&& values@.len() == 2
            &&& little_endian_value(values@[0]@) == spec_decimal_value(x->Ok_0)
            &&& little_endian_value(values@[1]@) == spec_decimal_value(y->Ok_0)
        },
        Err(failure) => if x is Err {
            x->Err_0 == failure.spec_report()
        } else {
            y is Err && y->Err_0 == failure.spec_report()
        },
    }
}

/// Reads the shared values from the fields of an input document: the first number
/// of `deviceKeyX`, then the first number of `deviceKeyY`. Both circuits read
/// them in the same way, which is what lets their commitments agree.
///
/// Fails with invalid input when either cannot be read, reporting the failure of
/// `deviceKeyX` if both fail.
pub fn shared_from_inputs(
    fields: &Vec<InputField>,
) -> (values: Result<Vec<ScalarBytes>, BackendFailure>)
    ensures
        spec_shared_from_inputs(fields@, values),
{
    let x = match scalar_input(fields, "deviceKeyX") {
        Ok(x) => x,
        Err(failure) => {
            return Err(failure);
        },
    };
    let y = match scalar_input(fields, "deviceKeyY") {
        Ok(y) => y,
        Err(failure) => {
            return Err(failure);
        },
    };
    Ok(shared_values(x, y))
}

/// One document, one set of shared values. Whenever the shared values are read
/// from the same input document, by either circuit, they come out the same. So
/// two circuits that prove from one document commit to the same shared values.
pub proof fn law_shared_values_are_determined(
    fields: Seq<InputField>,
    first: Result<Vec<ScalarBytes>, BackendFailure>,
    second: Result<Vec<ScalarBytes>, BackendFailure>,
)
    requires
        spec_shared_from_inputs(fields, first),
        spec_shared_from_inputs(fields, second),
    ensures
        first is Ok == second is Ok,
        first is Ok ==> first->Ok_0@ == second->Ok_0@,
        first is Err ==> first->Err_0.spec_report() == second->Err_0.spec_report(),
{
    if first is Ok {
        let a = first->Ok_0@;
        let b = second->Ok_0@;
        crate::inputs::lemma_value_determines_bytes(a[0]@, b[0]@);
        crate::inputs::lemma_value_determines_bytes(a[1]@, b[1]@);
        assert(a[0] =~= b[0]);
        assert(a[1] =~= b[1]);
        assert(a =~= b);
    }
}

/// The statement of the Prepare phase.
#[derive(Debug)]
pub struct PrepareCircuit {
    /// Where the caller says the input document lies, if the caller says so.
    pub input_path: Option<String>,
}

impl PrepareCircuit {
    /// The Prepare statement over the input document at `input_path`, or over
    /// the default document if there is none.
    pub fn new(input_path: Option<String>) -> (circuit: PrepareCircuit)
        ensures
            circuit.input_path == input_path,
    {
        PrepareCircuit { input_path }
    }

    /// The places where the input document is looked for, in order; the packaged
    /// document is resolved against `package_root`.
    pub fn input_candidates(&self, package_root: &str) -> (candidates: Vec<String>)
        ensures
            spec_texts(candidates@) == spec_input_candidates(
                CircuitKind::Prepare,
                self.input_path,
                package_root@,
            ),
    {
        input_candidates(CircuitKind::Prepare, &self.input_path, package_root)
    }

    /// The places where the constraints are looked for, in order; the packaged
    /// constraints are resolved against `package_root`.
    pub fn constraints_candidates(&self, package_root: &str) -> (candidates: Vec<String>)
        ensures
            spec_texts(candidates@) == spec_constraints_candidates(
                CircuitKind::Prepare,
                package_root@,
            ),
    {
        constraints_candidates(CircuitKind::Prepare, package_root)
    }

    /// The values that the circuit makes public: none.
    pub fn public_values(&self) -> (values: Vec<ScalarBytes>)
        ensures
            values@.len() == 0,
    {
        Vec::new()
    }

    /// The values that the circuit shares with the Show circuit, read from the
    /// fields of its input document. See [`shared_from_inputs`].
    pub fn shared_from_inputs(
        &self,
        fields: &Vec<InputField>,
    ) -> (values: Result<Vec<ScalarBytes>, BackendFailure>)
        ensures
            spec_shared_from_inputs(fields@, values),
    {
        shared_from_inputs(fields)
    }

    /// The number of values that the circuit commits to before the verifier's
    /// challenge: none.
    pub fn precommitted(&self) -> (count: usize)
        ensures
            count == 0,
    {
        0
    }

    /// The number of challenges that the circuit expects from the verifier: none.
    pub fn num_challenges(&self) -> (count: usize)
        ensures
            count == 0,
    {
        0
    }

    /// The phase that the circuit belongs to.
    pub fn kind(&self) -> (kind: CircuitKind)
        ensures
            kind == CircuitKind::Prepare,
    {
        CircuitKind::Prepare
    }
}

/// The statement of the Show phase.
#[derive(Debug)]
pub struct ShowCircuit {
    /// Where the caller says the input document lies, if the caller says so.
    pub input_path: Option<String>,
}

impl ShowCircuit {
    /// The Show statement over the input document at `input_path`, or over the
    /// default document if there is none.
    pub fn new(input_path: Option<String>) -> (circuit: ShowCircuit)
        ensures
            circuit.input_path == input_path,
    {
        ShowCircuit { input_path }
    }

    /// The places where the input document is looked for, in order; the packaged
    /// document is resolved against `package_root`.
    pub fn input_candidates(&self, package_root: &str) -> (candidates: Vec<String>)
        ensures
            spec_texts(candidates@) == spec_input_candidates(
                CircuitKind::Show,
                self.input_path,
                package_root@,
            ),
    {
        input_candidates(CircuitKind::Show, &self.input_path, package_root)
    }

    /// The places where the constraints are looked for, in order; the packaged
    /// constraints are resolved against `package_root`.
    pub fn constraints_candidates(&self, package_root: &str) -> (candidates: Vec<String>)
        ensures
            spec_texts(candidates@) == spec_constraints_candidates(
                CircuitKind::Show,
                package_root@,
            ),
    {
        constraints_candidates(CircuitKind::Show, package_root)
    }

    /// The values that the circuit makes public: none.
    pub fn public_values(&self) -> (values: Vec<ScalarBytes>)
        ensures
            values@.len() == 0,
    {
        Vec::new()
    }

    /// The values that the circuit shares with the Prepare circuit: the two
    /// coordinates of the device key, x first.
    pub fn shared(
        &self,
        device_key_x: ScalarBytes,
        device_key_y: ScalarBytes,
    ) -> (values: Vec<ScalarBytes>)
        ensures
            values@ == seq![device_key_x, device_key_y],
    {
        shared_values(device_key_x, device_key_y)
    }

    /// The values that the circuit shares with the Prepare circuit, read from the
    /// fields of its input document. See [`shared_from_inputs`].
    pub fn shared_from_inputs(
        &self,
        fields: &Vec<InputField>,
    ) -> (values: Result<Vec<ScalarBytes>, BackendFailure>)
        ensures
            spec_shared_from_inputs(fields@, values),
    {
        shared_from_inputs(fields)
    }

    /// The number of values that the circuit commits to before the verifier's
    /// challenge: none.
    pub fn precommitted(&self) -> (count: usize)
        ensures
            count == 0,
    {
        0
    }

    /// The number of challenges that the circuit expects from the verifier: none.
    pub fn num_challenges(&self) -> (count: usize)
        ensures
            count == 0,
    {
        0
    }

    /// The phase that the circuit belongs to.
    pub fn kind(&self) -> (kind: CircuitKind)
        ensures
            kind == CircuitKind::Show,
    {
        CircuitKind::Show
    }
}

/// The statement of the Prepare phase for devices that cannot compute the
/// witness themselves: it reads a witness that was computed beforehand.
#[derive(Clone, Copy, Debug, PartialEq, Eq, Structural)]
pub struct MobileJWTCircuit;

/// What a bad witness file is reported as.
pub open spec fn spec_witness_failure(e: WitnessFileError) -> (ErrorKind, Seq<char>) {
    (ErrorKind::InvalidInput, e.spec_describe())
}

impl MobileJWTCircuit {
    /// The directory of the circuit's files, below the working directory.
    pub fn witness_directory(&self) -> (path: &'static str)
        ensures
            path@ == "circom/build/jwt/jwt_js"@,
    {
        "circom/build/jwt/jwt_js"
    }

    /// The name of the constraints file in that directory.
    pub fn constraints_file(&self) -> (name: &'static str)
        ensures
            name@ == "jwt.r1cs"@,
    {
        "jwt.r1cs"
    }

    /// The name of the witness file in that directory.
    pub fn witness_file(&self) -> (name: &'static str)
        ensures
            name@ == "jwt.wtns"@,
    {
        "jwt.wtns"
    }

    /// Reads the witness from the bytes of the witness file. A file that is not a
    /// witness container is reported as invalid input.
    pub fn load_witness(&self, bytes: &[u8]) -> (loaded: Result<Vec<ScalarBytes>, ZkProofError>)
        ensures
            match loaded {
                Ok(elements) => spec_parse_witness(bytes@) == Ok::<
                    Seq<Seq<u8>>,
                    WitnessFileError,
                >(crate::backend::scalar_views(elements@)),
                Err(e) => spec_parse_witness(bytes@) is Err && (e.spec_kind(), e.spec_message())
                    == spec_witness_failure(spec_parse_witness(bytes@)->Err_0),
            },
    {
        match parse_witness(bytes) {
            Ok(elements) => Ok(elements),
            Err(e) => Err(e.into_error()),
        }
    }

    /// The values that the circuit makes public: none.
    pub fn public_values(&self) -> (values: Vec<ScalarBytes>)
        ensures
            values@.len() == 0,
    {
        Vec::new()
    }

    /// The values that the circuit shares with the other circuit: none.
    pub fn shared(&self) -> (values: Vec<ScalarBytes>)
        ensures
            values@.len() == 0,
    {
        Vec::new()
    }

    /// The number of values that the circuit commits to before the verifier's
    /// challenge: none.
    pub fn precommitted(&self) -> (count: usize)
        ensures
            count == 0,
    {
        0
    }

    /// The number of challenges that the circuit expects from the verifier: none.
    pub fn num_challenges(&self) -> (count: usize)
        ensures
            count == 0,
    {
        0
    }

    /// The phase that the circuit belongs to.
    pub fn kind(&self) -> (kind: CircuitKind)
        ensures
            kind == CircuitKind::Prepare,
    {
        CircuitKind::Prepare
    }
}

} // verus!
