use vstd::prelude::*;
use vstd::string::StringSliceAdditionalSpecFns;

verus! {

/// The entry points that the host can invoke on this contract.
#[derive(Clone, Copy, Debug, PartialEq, Eq, Structural)]
pub enum Endpoint {
    Answer,
    CallCaller,
    CallFirstContract,
    CallFirstAndSecondContract,
    SuccessCallback,
    FailCallback,
}

/// Whether two byte strings are equal.
fn bytes_equal(a: &[u8], b: &[u8]) -> (r: bool)
    ensures
        r == (a@ == b@),
{
    if a.len() != b.len() {
        return false;
    }
    let mut i: usize = 0;
    while i < a.len()
        invariant
            a@.len() == b@.len(),
            i <= a@.len(),
            forall|j: int| 0 <= j < i ==> a@[j] == b@[j],
        decreases a@.len() - i,
    {
        if a[i] != b[i] {
            return false;
        }
        i = i + 1;
    }
    assert(a@ =~= b@);
    true
}

impl Endpoint {
    /// The invocation name of the entry point.
    pub open spec fn spec_name(self) -> Seq<u8> {
        match self {
            Endpoint::Answer => "answer".spec_bytes(),
            Endpoint::CallCaller => "call_caller".spec_bytes(),
            Endpoint::CallFirstContract => "call_first_contract".spec_bytes(),
            Endpoint::CallFirstAndSecondContract => "call_first_and_second_contract".spec_bytes(),
            Endpoint::SuccessCallback => "success_callback".spec_bytes(),
            Endpoint::FailCallback => "fail_callback".spec_bytes(),
        }
    }

    /// The invocation name of the entry point.
    pub fn name(&self) -> (r: &'static str)
        ensures
            r.spec_bytes() == self.spec_name(),
    {
        match self {
            Endpoint::Answer => "answer",
            Endpoint::CallCaller => "call_caller",
            Endpoint::CallFirstContract => "call_first_contract",
            Endpoint::CallFirstAndSecondContract => "call_first_and_second_contract",
            Endpoint::SuccessCallback => "success_callback",
            Endpoint::FailCallback => "fail_callback",
        }
    }

    /// The entry point that an invocation name routes to, if any.
    pub fn from_name(name: &[u8]) -> (r: Option<Endpoint>)
        ensures
            r matches Some(e) ==> e.spec_name() == name@,
            r is None ==> forall|e: Endpoint| e.spec_name() != name@,
    {
        let all = [
            Endpoint::Answer,
            Endpoint::CallCaller,
            Endpoint::CallFirstContract,
            Endpoint::CallFirstAndSecondContract,
            Endpoint::SuccessCallback,
            Endpoint::FailCallback,
        ];
        let mut i: usize = 0;
        while i < 6
            invariant
                i <= 6,
                all@ == seq![
                    Endpoint::Answer,
                    Endpoint::CallCaller,
                    Endpoint::CallFirstContract,
                    Endpoint::CallFirstAndSecondContract,
                    Endpoint::SuccessCallback,
                    Endpoint::FailCallback,
                ],
                forall|j: int| 0 <= j < i ==> all@[j].spec_name() != name@,
            decreases 6 - i,
        {
            let e = all[i];
            if bytes_equal(e.name().as_bytes(), name) {
                return Some(e);
            }
            i = i + 1;
        }
        assert forall|e: Endpoint| e.spec_name() != name@ by {
            match e {
                Endpoint::Answer => assert(all@[0] == e),
                Endpoint::CallCaller => assert(all@[1] == e),
                Endpoint::CallFirstContract => assert(all@[2] == e),
                Endpoint::CallFirstAndSecondContract => assert(all@[3] == e),
                Endpoint::SuccessCallback => assert(all@[4] == e),
                Endpoint::FailCallback => assert(all@[5] == e),
            }
        }
        None
    }
}

} // verus!
