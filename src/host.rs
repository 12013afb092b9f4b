//! The training host capability: the handle-issuing host state, the types
//! that cross the boundary for its operation, and the marshaling of that
//! operation from raw guest arguments.
use vstd::prelude::*;
use vstd::string::StringExecFns;
use vstd::bytes::{
    lemma_auto_spec_u64_to_from_le_bytes,
    spec_u64_from_le_bytes,
    spec_u64_to_le_bytes,
    u64_from_le_bytes,
    u64_to_le_bytes,
};
use crate::error::{ApiError, ApiErrorKind, ApiErrorMessage};
use crate::marshal::{
    ArgKind,
    ArgSpec,
    decode_args,
    decoded,
    protocol_value,
    scalar_value,
    text_value,
};
use crate::memory::{PlainOldData, in_bounds, overwritten, scalar_at, text_at, write_scalar};

verus! {

/// Opaque reference to a host-side asynchronous operation.
#[derive(Clone, Copy, Debug, PartialEq, Eq, Structural)]
pub struct FutureHandle(pub u64);

impl PlainOldData for FutureHandle {
    open spec fn spec_size() -> nat {
        8
    }

    open spec fn spec_from_bytes(bytes: Seq<u8>) -> FutureHandle {
        FutureHandle(spec_u64_from_le_bytes(bytes))
    }

    open spec fn spec_to_bytes(v: FutureHandle) -> Seq<u8> {
        spec_u64_to_le_bytes(v.0)
    }

    fn size() -> (r: u32) {
        8
    }

    fn from_bytes(bytes: &[u8]) -> (r: FutureHandle) {
        FutureHandle(u64_from_le_bytes(bytes))
    }

    fn to_bytes(&self) -> (r: Vec<u8>) {
        u64_to_le_bytes(self.0)
    }

    proof fn lemma_round_trip(v: FutureHandle) {
        lemma_auto_spec_u64_to_from_le_bytes();
        assert(spec_u64_to_le_bytes(v.0).len() == 8);
    }
}

/// Protocol settings passed by the guest as a fixed-layout struct. It has no
/// fields yet, so it takes no bytes.
#[derive(Clone, Copy, Debug, PartialEq, Eq, Structural)]
pub struct ProtocolConfig {}

impl PlainOldData for ProtocolConfig {
    open spec fn spec_size() -> nat {
        0
    }

    open spec fn spec_from_bytes(bytes: Seq<u8>) -> ProtocolConfig {
        ProtocolConfig {  }
    }

    open spec fn spec_to_bytes(v: ProtocolConfig) -> Seq<u8> {
        Seq::empty()
    }

    fn size() -> (r: u32) {
        0
    }

    fn from_bytes(bytes: &[u8]) -> (r: ProtocolConfig) {
        ProtocolConfig {  }
    }

    fn to_bytes(&self) -> (r: Vec<u8>) {
        Vec::new()
    }

    proof fn lemma_round_trip(v: ProtocolConfig) {
    }
}

/// The decoded arguments of one started training run, with its handle.
#[derive(Debug)]
pub struct TrainingRun {
    pub handle: FutureHandle,
    pub url: String,
    pub port: u32,
    pub game: String,
    pub experiment: String,
    pub num_workers: u32,
    pub config: String,
    pub checkpoint: String,
    pub duration_seconds: u64,
    pub protocol: ProtocolConfig,
}

/// The same run over mathematical text.
pub struct TrainingRunView {
    pub handle: u64,
    pub url: Seq<char>,
    pub port: u32,
    pub game: Seq<char>,
    pub experiment: Seq<char>,
    pub num_workers: u32,
    pub config: Seq<char>,
    pub checkpoint: Seq<char>,
    pub duration_seconds: u64,
}

impl View for TrainingRun {
    type V = TrainingRunView;

    open spec fn view(&self) -> TrainingRunView {
        TrainingRunView {
            handle: self.handle.0,
            url: self.url@,
            port: self.port,
            game: self.game@,
            experiment: self.experiment@,
            num_workers: self.num_workers,
            config: self.config@,
            checkpoint: self.checkpoint@,
            duration_seconds: self.duration_seconds,
        }
    }
}

/// The training host: it records each started run and hands out its handle.
/// Run `i` (from zero) has handle `i + 1`, so handles are nonzero and no two
/// outstanding runs share one.
pub struct MLApiHost {
    runs: Vec<TrainingRun>,
}

impl MLApiHost {
    /// The runs started so far, oldest first.
    pub closed spec fn spec_runs(&self) -> Seq<TrainingRunView> {
        self.runs@.map_values(|r: TrainingRun| r@)
    }

    #[verifier::type_invariant]
    closed spec fn wf(&self) -> bool {
        forall|i: int| 0 <= i < self.runs@.len() ==> #[trigger] self.runs@[i].handle.0 == i + 1
    }

    /// The handles of the outstanding runs.
    pub open spec fn spec_handles(&self) -> Seq<u64> {
        self.spec_runs().map_values(|r: TrainingRunView| r.handle)
    }

    pub open spec fn spec_name() -> Seq<char> {
        "ml_api"@
    }

    /// A host with no runs.
    pub fn new() -> (r: MLApiHost)
        ensures
            r.spec_runs() == Seq::<TrainingRunView>::empty(),
    {
        let r = MLApiHost { runs: Vec::new() };
        assert(r.spec_runs() =~= Seq::<TrainingRunView>::empty());
        r
    }

    /// The name the host is known by in diagnostics.
    pub fn name() -> (r: &'static str)
        ensures
            r@ == Self::spec_name(),
    {
        "ml_api"
    }

    /// Module namespace and function prefix of the host's imports.
    pub fn namespace() -> (r: (&'static str, &'static str))
        ensures
            r.0@ == "hello"@,
            r.1@ == "world"@,
    {
        ("hello", "world")
    }

    /// Number of runs started so far.
    pub fn run_count(&self) -> (r: usize)
        ensures
            r == self.spec_runs().len(),
    {
        self.runs.len()
    }

    /// The handles of the outstanding runs, oldest first. The run at position
    /// `i` has handle `i + 1`: every handle is nonzero and no two are equal.
    pub fn handles(&self) -> (r: Vec<u64>)
        ensures
            r@ == self.spec_handles(),
            forall|i: int| 0 <= i < r@.len() ==> #[trigger] r@[i] == i + 1,
    {
        proof {
            use_type_invariant(self);
        }
        let mut out: Vec<u64> = Vec::new();
        let mut i: usize = 0;
        while i < self.runs.len()
            invariant
                i <= self.runs@.len(),
                out@ == self.spec_handles().subrange(0, i as int),
            decreases self.runs@.len() - i,
        {
            out.push(self.runs[i].handle.0);
            i = i + 1;
            assert(out@ =~= self.spec_handles().subrange(0, i as int));
        }
        assert(out@ =~= self.spec_handles());
        out
    }

    /// The run at position `i`, oldest first.
    pub fn run(&self, i: usize) -> (r: &TrainingRun)
        requires
            i < self.spec_runs().len(),
        ensures
            r@ == self.spec_runs()[i as int],
    {
        &self.runs[i]
    }

    /// Starts a training run and returns its handle without waiting for it.
    pub fn start_training_shim(
        &mut self,
        url: &str,
        port: u32,
        game: &str,
        experiment: &str,
        num_workers: u32,
        config: &str,
        checkpoint: &str,
        duration_seconds: u64,
        protocol: &ProtocolConfig,
    ) -> (r: Result<FutureHandle, ApiError>)
        ensures
            old(self).spec_runs().len() < u64::MAX ==> {
                &&& r == Ok::<FutureHandle, ApiError>(FutureHandle((old(self).spec_runs().len() + 1) as u64))
                &&& final(self).spec_runs() == old(self).spec_runs().push(
                    TrainingRunView {
                        handle: (old(self).spec_runs().len() + 1) as u64,
                        url: url@,
                        port,
                        game: game@,
                        experiment: experiment@,
                        num_workers,
                        config: config@,
                        checkpoint: checkpoint@,
                        duration_seconds,
                    },
                )
            },
            old(self).spec_runs().len() >= u64::MAX ==> {
                &&& r is Err
                &&& r->Err_0.kind == ApiErrorKind::ResourceExhausted
                &&& final(self).spec_runs() == old(self).spec_runs()
            },
            r is Ok ==> r->Ok_0.0 != 0 && !old(self).spec_handles().contains(r->Ok_0.0),
    {
        proof {
            use_type_invariant(&*self);
        }
        let n = self.runs.len();
        if n as u64 >= u64::MAX {
            return Err(ApiError::new(ApiErrorKind::ResourceExhausted, ApiErrorMessage::from("no training handle left")));
        }
        let handle = FutureHandle(n as u64 + 1);
        assert(!self.spec_handles().contains(handle.0)) by {
            if self.spec_handles().contains(handle.0) {
                let k = choose|k: int| 0 <= k < self.spec_handles().len() && self.spec_handles()[k] == handle.0;
                assert(self.runs@[k].handle.0 == k + 1);
            }
        }
        let run = TrainingRun {
            handle,
            url: String::from_str(url),
            port,
            game: String::from_str(game),
            experiment: String::from_str(experiment),
            num_workers,
            config: String::from_str(config),
            checkpoint: String::from_str(checkpoint),
            duration_seconds,
            protocol: *protocol,
        };
        let ghost before = self.runs@;
        let mut taken = MLApiHost { runs: Vec::new() };
        core::mem::swap(self, &mut taken);
        let mut runs = taken.runs;
        runs.push(run);
        assert(runs@.map_values(|r: TrainingRun| r@) =~= before.map_values(|r: TrainingRun| r@).push(run@));
        *self = MLApiHost { runs };
        Ok(handle)
    }
}

/// Raw arguments of `start_training` as the guest passes them: a pointer and
/// a length per string, a pointer to the protocol struct, plain scalars, and
/// the pointer that receives the handle.
#[derive(Clone, Copy, Debug, PartialEq, Eq, Structural)]
pub struct StartTrainingArgs {
    pub url_ptr: u32,
    pub url_len: u32,
    pub port: u32,
    pub game_ptr: u32,
    pub game_len: u32,
    pub experiment_ptr: u32,
    pub experiment_len: u32,
    pub num_workers: u32,
    pub config_ptr: u32,
    pub config_len: u32,
    pub checkpoint_ptr: u32,
    pub checkpoint_len: u32,
    pub duration_seconds: u64,
    pub protocol_ptr: u32,
    pub output_ptr: u32,
}

/// The run that `args` describe in `mem`, given the handle it will get; none
/// when a string is out of bounds or not UTF-8, or the protocol struct is out
/// of bounds.
pub open spec fn requested_run(mem: Seq<u8>, args: StartTrainingArgs, handle: u64) -> Option<TrainingRunView> {
    let url = text_at(mem, args.url_ptr, args.url_len);
    let game = text_at(mem, args.game_ptr, args.game_len);
    let experiment = text_at(mem, args.experiment_ptr, args.experiment_len);
    let config = text_at(mem, args.config_ptr, args.config_len);
    let checkpoint = text_at(mem, args.checkpoint_ptr, args.checkpoint_len);
    let protocol = scalar_at::<ProtocolConfig>(mem, args.protocol_ptr);
    if url is Some && game is Some && experiment is Some && config is Some && checkpoint is Some
        && protocol is Some {
        Some(
            TrainingRunView {
                handle,
                url: url->Some_0,
                port: args.port,
                game: game->Some_0,
                experiment: experiment->Some_0,
                num_workers: args.num_workers,
                config: config->Some_0,
                checkpoint: checkpoint->Some_0,
                duration_seconds: args.duration_seconds,
            },
        )
    } else {
        None
    }
}

/// Whether a `start_training` call on `mem` with `args` fully succeeds for a
/// host that has started `started` runs.
pub open spec fn start_training_succeeds(mem: Seq<u8>, args: StartTrainingArgs, started: nat) -> bool {
    &&& requested_run(mem, args, 0) is Some
    &&& started < u64::MAX
    &&& in_bounds(mem.len(), args.output_ptr, FutureHandle::spec_size())
}

impl MLApiHost {
    /// Decodes the raw arguments of `start_training` from guest memory, starts
    /// the run, and writes its handle at `args.output_ptr`.
    pub fn start_training(&mut self, mem: &mut [u8], args: &StartTrainingArgs) -> (r: Result<(), ApiError>)
        ensures
            r is Ok <==> start_training_succeeds(old(mem)@, *args, old(self).spec_runs().len()),
            requested_run(old(mem)@, *args, 0) is None ==> {
                &&& r is Err
                &&& r->Err_0.kind == ApiErrorKind::InvalidArguments
                &&& final(self).spec_runs() == old(self).spec_runs()
                &&& final(mem)@ == old(mem)@
            },
            requested_run(old(mem)@, *args, 0) is Some && old(self).spec_runs().len() >= u64::MAX ==> {
                &&& r is Err
                &&& r->Err_0.kind == ApiErrorKind::ResourceExhausted
                &&& final(self).spec_runs() == old(self).spec_runs()
                &&& final(mem)@ == old(mem)@
            },
            requested_run(old(mem)@, *args, 0) is Some && old(self).spec_runs().len() < u64::MAX ==> {
                let handle = (old(self).spec_runs().len() + 1) as u64;
                &&& final(self).spec_runs() == old(self).spec_runs().push(
                    requested_run(old(mem)@, *args, handle)->Some_0,
                )
                &&& in_bounds(old(mem)@.len(), args.output_ptr, FutureHandle::spec_size())
                    ==> final(mem)@ == overwritten(
                    old(mem)@,
                    args.output_ptr,
                    FutureHandle::spec_to_bytes(FutureHandle(handle)),
                )
                &&& !in_bounds(old(mem)@.len(), args.output_ptr, FutureHandle::spec_size()) ==> {
                    &&& r->Err_0.kind == ApiErrorKind::InvalidArguments
                    &&& final(mem)@ == old(mem)@
                }
            },
    {
        let specs = vec![
            ArgSpec { name: "url", kind: ArgKind::Text(args.url_ptr, args.url_len) },
            ArgSpec { name: "port", kind: ArgKind::Scalar(args.port as u64) },
            ArgSpec { name: "game", kind: ArgKind::Text(args.game_ptr, args.game_len) },
            ArgSpec { name: "experiment", kind: ArgKind::Text(args.experiment_ptr, args.experiment_len) },
            ArgSpec { name: "num_workers", kind: ArgKind::Scalar(args.num_workers as u64) },
            ArgSpec { name: "config", kind: ArgKind::Text(args.config_ptr, args.config_len) },
            ArgSpec { name: "checkpoint", kind: ArgKind::Text(args.checkpoint_ptr, args.checkpoint_len) },
            ArgSpec { name: "duration_seconds", kind: ArgKind::Scalar(args.duration_seconds) },
            ArgSpec { name: "protocol", kind: ArgKind::Protocol(args.protocol_ptr) },
        ];
        let values = decode_args(mem, specs.as_slice());
        proof {
            let m = mem@;
            assert(specs@[0].kind == ArgKind::Text(args.url_ptr, args.url_len));
            assert(specs@[2].kind == ArgKind::Text(args.game_ptr, args.game_len));
            assert(specs@[3].kind == ArgKind::Text(args.experiment_ptr, args.experiment_len));
            assert(specs@[5].kind == ArgKind::Text(args.config_ptr, args.config_len));
            assert(specs@[6].kind == ArgKind::Text(args.checkpoint_ptr, args.checkpoint_len));
            assert(specs@[8].kind == ArgKind::Protocol(args.protocol_ptr));
            assert(decoded(m, specs@[1].kind) is Some);
            assert(decoded(m, specs@[4].kind) is Some);
            assert(decoded(m, specs@[7].kind) is Some);
            if requested_run(m, *args, 0) is Some {
                assert forall|i: int| 0 <= i < specs@.len() implies (#[trigger] decoded(m, specs@[i].kind)) is Some by {
                    assert(0 <= i < 9);
                }
            }
        }
        let values = match values {
            Ok(v) => v,
            Err(e) => return Err(e),
        };
        let url = text_value(&values[0]);
        let port = scalar_value(&values[1]) as u32;
        let game = text_value(&values[2]);
        let experiment = text_value(&values[3]);
        let num_workers = scalar_value(&values[4]) as u32;
        let config = text_value(&values[5]);
        let checkpoint = text_value(&values[6]);
        let duration_seconds = scalar_value(&values[7]);
        let protocol = protocol_value(&values[8]);
        let handle = match self.start_training_shim(
            url,
            port,
            game,
            experiment,
            num_workers,
            config,
            checkpoint,
            duration_seconds,
            &protocol,
        ) {
            Ok(h) => h,
            Err(e) => return Err(e),
        };
        match write_scalar(mem, args.output_ptr, handle) {
            Ok(()) => Ok(()),
            Err(e) => Err(e.context("output")),
        }
    }
}

/// The wire-visible name of `operation` under `prefix`.
pub open spec fn spec_import_name(prefix: Seq<char>, operation: Seq<char>) -> Seq<char> {
    prefix + "__"@ + operation
}

/// Builds the wire-visible name `"{prefix}__{operation}"`.
pub fn import_name(prefix: &str, operation: &str) -> (r: String)
    ensures
        r@ == spec_import_name(prefix@, operation@),
{
    String::from_str(prefix).concat("__").concat(operation)
}

} // verus!
