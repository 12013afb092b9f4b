use ml_api_host::dispatch::{dispatch_start_training, log_call};
use ml_api_host::error::{ApiError, ApiErrorKind, ApiErrorMessage, ErrorCode};
use ml_api_host::host::{import_name, FutureHandle, ProtocolConfig, StartTrainingArgs};
use ml_api_host::memory::{read_scalar, read_slice, read_utf8, write_scalar};
use ml_api_host::MLApiHost;

const GUARD: u8 = 0xAB;

/// Lays out the given strings one after another from offset 16 and returns
/// the buffer with the (ptr, len) of each.
fn layout(strings: &[&str], extra: usize) -> (Vec<u8>, Vec<(u32, u32)>) {
    let mut mem = vec![GUARD; 16];
    let mut places = Vec::new();
    for s in strings {
        places.push((mem.len() as u32, s.len() as u32));
        mem.extend_from_slice(s.as_bytes());
    }
    mem.extend(std::iter::repeat(0u8).take(extra));
    (mem, places)
}

fn scenario_args(places: &[(u32, u32)], output_ptr: u32) -> StartTrainingArgs {
    StartTrainingArgs {
        url_ptr: places[0].0,
        url_len: places[0].1,
        port: 1234,
        game_ptr: places[1].0,
        game_len: places[1].1,
        experiment_ptr: places[2].0,
        experiment_len: places[2].1,
        num_workers: 4,
        config_ptr: places[3].0,
        config_len: places[3].1,
        checkpoint_ptr: places[4].0,
        checkpoint_len: places[4].1,
        duration_seconds: 60,
        protocol_ptr: 0,
        output_ptr,
    }
}

#[test]
fn start_training_succeeds_and_writes_handle() {
    let (mut mem, places) = layout(&["http://hive:1234", "go", "exp1", "{}", ""], 16);
    let output_ptr = (mem.len() - 8) as u32;
    let args = scenario_args(&places, output_ptr);
    let mut host = MLApiHost::new();
    let out = dispatch_start_training(&mut host, &mut mem, &args);
    assert_eq!(out.code, 0);
    assert!(out.warning.is_none());
    let handle: FutureHandle = read_scalar(&mem, output_ptr).unwrap();
    assert_ne!(handle.0, 0);
    assert_eq!(host.run_count(), 1);
    let run = host.run(0);
    assert_eq!(run.handle, handle);
    assert_eq!(run.url, "http://hive:1234");
    assert_eq!(run.port, 1234);
    assert_eq!(run.game, "go");
    assert_eq!(run.experiment, "exp1");
    assert_eq!(run.num_workers, 4);
    assert_eq!(run.config, "{}");
    assert_eq!(run.checkpoint, "");
    assert_eq!(run.duration_seconds, 60);
    assert_eq!(&mem[..16], &[GUARD; 16]);
}

#[test]
fn outstanding_handles_are_unique() {
    let (mut mem, places) = layout(&["http://hive:1234", "go", "exp1", "{}", ""], 16);
    let output_ptr = (mem.len() - 8) as u32;
    let args = scenario_args(&places, output_ptr);
    let mut host = MLApiHost::new();
    for _ in 0..3 {
        assert_eq!(dispatch_start_training(&mut host, &mut mem, &args).code, 0);
    }
    let handles = host.handles();
    assert_eq!(handles, vec![1, 2, 3]);
    let last: u64 = read_scalar(&mem, output_ptr).unwrap();
    assert_eq!(last, 3);
}

#[test]
fn start_training_url_out_of_bounds() {
    let (mut mem, places) = layout(&["http://hive:1234", "go", "exp1", "{}", ""], 16);
    let output_ptr = (mem.len() - 8) as u32;
    let mut args = scenario_args(&places, output_ptr);
    args.url_len = mem.len() as u32;
    let before = mem.clone();
    let mut host = MLApiHost::new();
    let out = dispatch_start_training(&mut host, &mut mem, &args);
    assert_eq!(out.code, ErrorCode::InvalidArguments.value());
    let warning = out.warning.expect("one warning");
    assert!(warning.starts_with("ml_api \"start_training\" failed: invalid arguments"));
    assert_eq!(mem, before);
    assert_eq!(host.run_count(), 0);
}

#[test]
fn start_training_bad_output_pointer_still_records_run() {
    let (mut mem, places) = layout(&["http://hive:1234", "go", "exp1", "{}", ""], 0);
    let output_ptr = (mem.len() - 4) as u32;
    let args = scenario_args(&places, output_ptr);
    let before = mem.clone();
    let mut host = MLApiHost::new();
    let res = host.start_training(&mut mem, &args);
    let err = res.unwrap_err();
    assert_eq!(err.kind, ApiErrorKind::InvalidArguments);
    assert!(err.display().contains("output"));
    assert_eq!(mem, before);
    assert_eq!(host.run_count(), 1);
}

#[test]
fn start_training_invalid_text() {
    let (mut mem, mut places) = layout(&["http://hive:1234", "go", "exp1", "{}", ""], 16);
    let bad = mem.len() as u32;
    mem.extend_from_slice(&[0xC3, 0x28]);
    places[2] = (bad, 2);
    let output_ptr = 0;
    let args = scenario_args(&places, output_ptr);
    let mut host = MLApiHost::new();
    let out = dispatch_start_training(&mut host, &mut mem, &args);
    assert_eq!(out.code, 1);
    assert!(out.warning.unwrap().contains("experiment"));
    assert_eq!(host.run_count(), 0);
}

#[test]
fn read_scalar_in_and_out_of_bounds() {
    let mem = vec![0x01, 0x02, 0x03, 0x04, GUARD, GUARD];
    let v: u32 = read_scalar(&mem, 0).unwrap();
    assert_eq!(v, 0x0403_0201);
    let v: u32 = read_scalar(&mem, 2).unwrap();
    assert_eq!(v, 0xABAB_0403);
    let e = read_scalar::<u32>(&mem, 3).unwrap_err();
    assert_eq!(e.kind, ApiErrorKind::InvalidArguments);
    let e = read_scalar::<u64>(&mem, u32::MAX).unwrap_err();
    assert_eq!(e.code(), ErrorCode::InvalidArguments);
    let p: ProtocolConfig = read_scalar(&mem, 6).unwrap();
    assert_eq!(p, ProtocolConfig {});
    assert!(read_scalar::<ProtocolConfig>(&mem, 7).is_err());
}

#[test]
fn read_slice_bounds_and_overflow() {
    let mem: Vec<u8> = (0u8..16).collect();
    let vs: Vec<u32> = read_slice(&mem, 4, 3).unwrap();
    assert_eq!(vs, vec![0x0706_0504, 0x0B0A_0908, 0x0F0E_0D0C]);
    assert_eq!(read_slice::<u32>(&mem, 0, 0).unwrap(), Vec::<u32>::new());
    assert!(read_slice::<u32>(&mem, 4, 4).is_err());
    assert!(read_slice::<u64>(&mem, 0, u32::MAX).is_err());
    assert!(read_slice::<u64>(&mem, u32::MAX, 1).is_err());
}

#[test]
fn read_utf8_decodes_text() {
    let text = "h\u{e9}llo \u{1F600}";
    let mut mem = vec![GUARD; 3];
    mem.extend_from_slice(text.as_bytes());
    mem.push(GUARD);
    let s = read_utf8(&mem, 3, text.len() as u32).unwrap();
    assert_eq!(s, text);
    assert_eq!(read_utf8(&mem, 0, 0).unwrap(), "");
    assert!(read_utf8(&mem, 3, mem.len() as u32).is_err());
}

#[test]
fn read_utf8_rejects_invalid_text() {
    for bad in [vec![0xFFu8], vec![0xC3, 0x28], vec![0xE2, 0x82], vec![0xED, 0xA0, 0x80]] {
        let e = read_utf8(&bad, 0, bad.len() as u32).unwrap_err();
        assert_eq!(e.kind, ApiErrorKind::InvalidArguments);
        assert!(e.display().starts_with("invalid arguments: guest text is not valid UTF-8 -> "));
    }
}

#[test]
fn write_then_read_round_trips() {
    let mut mem = vec![GUARD; 20];
    write_scalar(&mut mem, 3, 0xDEAD_BEEFu32).unwrap();
    assert_eq!(read_scalar::<u32>(&mem, 3).unwrap(), 0xDEAD_BEEF);
    assert_eq!(&mem[3..7], &[0xEF, 0xBE, 0xAD, 0xDE]);
    assert_eq!(mem[2], GUARD);
    assert_eq!(mem[7], GUARD);
    write_scalar(&mut mem, 12, u64::MAX - 1).unwrap();
    assert_eq!(read_scalar::<u64>(&mem, 12).unwrap(), u64::MAX - 1);
    write_scalar(&mut mem, 4, FutureHandle(42)).unwrap();
    assert_eq!(read_scalar::<FutureHandle>(&mem, 4).unwrap(), FutureHandle(42));
}

#[test]
fn write_scalar_out_of_bounds_leaves_memory() {
    let mut mem = vec![GUARD; 8];
    let e = write_scalar(&mut mem, 1, 7u64).unwrap_err();
    assert_eq!(e.kind, ApiErrorKind::InvalidArguments);
    assert_eq!(mem, vec![GUARD; 8]);
}

#[test]
fn log_call_codes_and_warnings() {
    let ok = log_call("ml_api", "start_training", Ok(()));
    assert_eq!(ok.code, 0);
    assert!(ok.warning.is_none());

    let nf = ApiError::new(ApiErrorKind::NotFound, ApiErrorMessage::from("no such run"));
    let out = log_call("ml_api", "query", Err(nf));
    assert_eq!(out.code, 6);
    assert!(out.warning.is_none());

    let bad = ApiError::invalid_arguments("bad pointer");
    let out = log_call("ml_api", "start_training", Err(bad));
    assert_eq!(out.code, 1);
    assert_eq!(
        out.warning.as_deref(),
        Some("ml_api \"start_training\" failed: invalid arguments: bad pointer")
    );

    let full = ApiError::new(ApiErrorKind::ResourceExhausted, ApiErrorMessage::from(""));
    let out = log_call("m", "f", Err(full));
    assert_eq!(out.code, 2);
    assert_eq!(out.warning.as_deref(), Some("m \"f\" failed: resource exhausted"));
}

#[test]
fn error_codes_and_messages() {
    assert_eq!(ErrorCode::Success.value(), 0);
    assert_eq!(ErrorCode::InvalidArguments.value(), 1);
    assert_eq!(ErrorCode::ResourceExhausted.value(), 2);
    assert_eq!(ErrorCode::NotFound.value(), 6);
    assert!(matches!(ApiErrorMessage::from(""), ApiErrorMessage::Empty));
    assert!(matches!(ApiErrorMessage::from("x"), ApiErrorMessage::Static("x")));
    assert!(matches!(ApiErrorMessage::from(String::from("y")), ApiErrorMessage::Dynamic(ref s) if s == "y"));
    let e = ApiError::new(ApiErrorKind::NotFound, ApiErrorMessage::Empty);
    assert_eq!(e.display(), "not found");
    assert_eq!(e.code(), ErrorCode::NotFound);
    let e = ApiError::invalid_arguments("inner").context("middle").context("outer");
    assert_eq!(e.display(), "invalid arguments: outer -> middle -> inner");
    let e = ApiError::new(ApiErrorKind::NotFound, ApiErrorMessage::Empty).context("only");
    assert_eq!(e.display(), "not found: only");
}

#[test]
fn import_names_and_namespace() {
    let (namespace, prefix) = MLApiHost::namespace();
    assert_eq!(namespace, "hello");
    assert_eq!(prefix, "world");
    assert_eq!(import_name(prefix, "start_training"), "world__start_training");
    assert_eq!(MLApiHost::name(), "ml_api");
}

#[test]
fn read_utf8_embeds_decoder_diagnostic() {
    let bad = vec![b'o', b'k', 0xFF, 0xFE];
    let diagnostic = std::str::from_utf8(&bad).unwrap_err().to_string();
    let e = read_utf8(&bad, 0, 4).unwrap_err();
    assert_eq!(e.code(), ErrorCode::InvalidArguments);
    assert_eq!(
        e.display(),
        format!("invalid arguments: guest text is not valid UTF-8 -> {}", diagnostic)
    );
    let e = ml_api_host::memory::invalid_text(String::from("diag"));
    assert_eq!(e.kind, ApiErrorKind::InvalidArguments);
    assert_eq!(e.display(), "invalid arguments: guest text is not valid UTF-8 -> diag");
}

#[test]
fn start_training_fixed_layout() {
    let mut mem = vec![0u8; 64];
    mem[0..16].copy_from_slice(b"http://hive:1234");
    mem[16..18].copy_from_slice(b"go");
    mem[18..22].copy_from_slice(b"exp1");
    mem[22..24].copy_from_slice(b"{}");
    let args = StartTrainingArgs {
        url_ptr: 0,
        url_len: 16,
        port: 1234,
        game_ptr: 16,
        game_len: 2,
        experiment_ptr: 18,
        experiment_len: 4,
        num_workers: 4,
        config_ptr: 22,
        config_len: 2,
        checkpoint_ptr: 24,
        checkpoint_len: 0,
        duration_seconds: 60,
        protocol_ptr: 32,
        output_ptr: 40,
    };
    let before = mem.clone();
    let mut host = MLApiHost::new();
    let out = dispatch_start_training(&mut host, &mut mem, &args);
    assert_eq!(out.code, 0);
    let handle: FutureHandle = read_scalar(&mem, 40).unwrap();
    assert_ne!(handle.0, 0);
    assert_eq!(&mem[..40], &before[..40]);
    assert_eq!(&mem[48..], &before[48..]);
}

#[test]
fn start_training_url_past_end_warning_has_chain() {
    let mut mem = vec![0u8; 64];
    let args = StartTrainingArgs {
        url_ptr: 60,
        url_len: 16,
        port: 1234,
        game_ptr: 0,
        game_len: 0,
        experiment_ptr: 0,
        experiment_len: 0,
        num_workers: 4,
        config_ptr: 0,
        config_len: 0,
        checkpoint_ptr: 0,
        checkpoint_len: 0,
        duration_seconds: 60,
        protocol_ptr: 0,
        output_ptr: 40,
    };
    let mut host = MLApiHost::new();
    let out = dispatch_start_training(&mut host, &mut mem, &args);
    assert_eq!(out.code, ErrorCode::InvalidArguments.value());
    assert_eq!(
        out.warning.as_deref(),
        Some("ml_api \"start_training\" failed: invalid arguments: url -> guest memory access out of bounds")
    );
    assert_eq!(mem, vec![0u8; 64]);
    assert_eq!(host.run_count(), 0);
}
