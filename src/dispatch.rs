//! Turns the outcome of a marshaled call into the integer returned to the
//! guest, and decides what is logged about it.
use vstd::prelude::*;
use vstd::string::StringExecFns;
use crate::error::{ApiError, ApiErrorKind, ErrorCode, lemma_error_code_nonzero};
use crate::host::{
    FutureHandle,
    MLApiHost,
    StartTrainingArgs,
    requested_run,
    start_training_succeeds,
};
use crate::memory::{PlainOldData, in_bounds, lemma_write_then_read, overwritten, scalar_at};

verus! {

/// What the boundary does after a call: the code to return, and at most one
/// warning to log before returning it.
#[derive(Debug)]
pub struct CallOutcome {
    pub code: u32,
    pub warning: Option<String>,
}

/// The warning logged for a failed call.
pub open spec fn spec_warning(module: Seq<char>, function: Seq<char>, message: Seq<char>) -> Seq<char> {
    module + " \""@ + function + "\" failed: "@ + message
}

/// Whether the policy logs an error: every kind but the benign `NotFound`.
pub open spec fn is_logged(kind: ApiErrorKind) -> bool {
    kind != ApiErrorKind::NotFound
}

/// The code for `res`, with the warning to log when it is a failure that is
/// not `NotFound`.
pub fn log_call(module: &str, function: &str, res: Result<(), ApiError>) -> (r: CallOutcome)
    ensures
        r.code == 0 <==> res is Ok,
        res is Ok ==> r.warning is None,
        res is Err ==> r.code == res->Err_0.spec_code().spec_value(),
        res is Err ==> (r.warning is Some <==> is_logged(res->Err_0.kind)),
        r.warning is Some ==> r.warning->Some_0@ == spec_warning(
            module@,
            function@,
            res->Err_0.spec_display(),
        ),
        r.code == ErrorCode::NotFound.spec_value() ==> r.warning is None,
        r.code != 0 && r.code != ErrorCode::NotFound.spec_value() ==> r.warning is Some && (module@
            + " \""@ + function@).is_prefix_of(r.warning->Some_0@),
{
    match res {
        Ok(()) => CallOutcome { code: ErrorCode::Success.value(), warning: None },
        Err(err) => {
            proof {
                lemma_error_code_nonzero(err.kind);
            }
            let code = err.code().value();
            let warning = match err.kind {
                ApiErrorKind::NotFound => None,
                _ => Some(
                    String::from_str(module).concat(" \"").concat(function).concat(
                        "\" failed: ",
                    ).concat(err.display().as_str()),
                ),
            };
            proof {
                if warning is Some {
                    let w = warning->Some_0@;
                    let p = module@ + " \""@ + function@;
                    assert(w.subrange(0, p.len() as int) =~= p);
                }
            }
            CallOutcome { code, warning }
        },
    }
}

/// Runs `start_training` on one call's memory view and converts the outcome
/// into the code for the guest and the warning to log.
pub fn dispatch_start_training(host: &mut MLApiHost, mem: &mut [u8], args: &StartTrainingArgs) -> (r: CallOutcome)
    ensures
        r.code == 0 <==> start_training_succeeds(old(mem)@, *args, old(host).spec_runs().len()),
        requested_run(old(mem)@, *args, 0) is None ==> {
            &&& r.code == ErrorCode::InvalidArguments.spec_value()
            &&& final(host).spec_runs() == old(host).spec_runs()
            &&& final(mem)@ == old(mem)@
        },
        requested_run(old(mem)@, *args, 0) is Some && old(host).spec_runs().len() >= u64::MAX ==> {
            &&& r.code == ErrorCode::ResourceExhausted.spec_value()
            &&& final(host).spec_runs() == old(host).spec_runs()
            &&& final(mem)@ == old(mem)@
        },
        requested_run(old(mem)@, *args, 0) is Some && old(host).spec_runs().len() < u64::MAX ==> {
            let handle = (old(host).spec_runs().len() + 1) as u64;
            &&& final(host).spec_runs() == old(host).spec_runs().push(
                requested_run(old(mem)@, *args, handle)->Some_0,
            )
            &&& in_bounds(old(mem)@.len(), args.output_ptr, FutureHandle::spec_size()) ==> {
                &&& r.code == 0
                &&& final(mem)@ == overwritten(
                    old(mem)@,
                    args.output_ptr,
                    FutureHandle::spec_to_bytes(FutureHandle(handle)),
                )
                &&& scalar_at::<FutureHandle>(final(mem)@, args.output_ptr) == Some(FutureHandle(handle))
                &&& handle != 0
                &&& forall|i: int|
                    0 <= i < old(mem)@.len() && !(args.output_ptr <= i < args.output_ptr + 8)
                        ==> #[trigger] final(mem)@[i] == old(mem)@[i]
            }
            &&& !in_bounds(old(mem)@.len(), args.output_ptr, FutureHandle::spec_size()) ==> {
                &&& r.code == ErrorCode::InvalidArguments.spec_value()
                &&& final(mem)@ == old(mem)@
            }
        },
        r.code == 0 ==> r.warning is None,
        r.code != 0 ==> r.warning is Some && exists|e: ApiError|
            #[trigger] e.spec_code().spec_value() == r.code && r.warning->Some_0@ == spec_warning(
                MLApiHost::spec_name(),
                "start_training"@,
                e.spec_display(),
            ),
{
    let res = host.start_training(mem, args);
    let ghost e = res->Err_0;
    let r = log_call(MLApiHost::name(), "start_training", res);
    proof {
        if r.code != 0 {
            assert(e.spec_code().spec_value() == r.code);
        }
        if r.code == 0 {
            let handle = (old(host).spec_runs().len() + 1) as u64;
            lemma_write_then_read(old(mem)@, args.output_ptr, FutureHandle(handle));
            FutureHandle::lemma_round_trip(FutureHandle(handle));
        }
    }
    r
}

} // verus!
