use sm121_kernels::device::{contains, diagnose_init_oom, init_device, is_sm121, Probe};
use sm121_kernels::error::{DriverError, SparkError};
use sm121_kernels::meminfo::{meminfo_field, meminfo_hint};
use sm121_kernels::shape::{div_ceil, greater_of, lesser_of, product, triple_product, truncate};
use sm121_kernels::text::decimal_string;

fn failed(text: &str) -> DriverError {
    DriverError { code: 2, text: text.into() }
}

#[test]
fn only_the_required_capability_is_accepted() {
    assert!(init_device(Probe::Capability { major: 12, minor: 1 }).is_ok());
    assert!(is_sm121(Probe::Capability { major: 12, minor: 1 }));
    for (major, minor) in [(12, 0), (9, 0), (12, 2), (1, 12)] {
        assert!(!is_sm121(Probe::Capability { major, minor }));
    }
    assert_eq!(
        init_device(Probe::Capability { major: 9, minor: 0 }),
        Err(SparkError::UnsupportedArch { major: 9, minor: 0 })
    );
    assert_eq!(
        init_device(Probe::Capability { major: 12, minor: -1 }),
        Err(SparkError::UnsupportedArch { major: 12, minor: u32::MAX })
    );
}

#[test]
fn driver_errors_are_passed_on() {
    assert_eq!(
        init_device(Probe::NoContext { error: failed("NO_DEVICE"), hint: None }),
        Err(SparkError::Driver(failed("NO_DEVICE")))
    );
    assert_eq!(
        init_device(Probe::NoMajor(failed("a"))),
        Err(SparkError::Driver(failed("a")))
    );
    assert_eq!(
        init_device(Probe::NoMinor(failed("b"))),
        Err(SparkError::Driver(failed("b")))
    );
    assert!(!is_sm121(Probe::NoMajor(failed("a"))));
}

#[test]
fn running_out_of_memory_is_explained() {
    let message = diagnose_init_oom("CUDA_ERROR_OUT_OF_MEMORY", Some(" MemFree=1.0 GiB."));
    assert_eq!(
        message,
        "CUDA out of memory initializing the GPU context. MemFree=1.0 GiB. On the DGX Spark \
         this is usually page-cache fragmentation of the shared LPDDR5x, not true exhaustion; \
         free it with: sudo sh -c 'echo 3 > /proc/sys/vm/drop_caches'. (driver error: \
         CUDA_ERROR_OUT_OF_MEMORY)"
    );
    let r = init_device(Probe::NoContext {
        error: failed("CUDA_ERROR_OUT_OF_MEMORY"),
        hint: Some(" MemFree=1.0 GiB.".into()),
    });
    assert_eq!(r, Err(SparkError::Other(message)));
    assert!(diagnose_init_oom("x", None).starts_with(
        "CUDA out of memory initializing the GPU context. On the DGX Spark"
    ));
}

#[test]
fn texts_are_searched() {
    assert!(contains("a OUT_OF_MEMORY b", "OUT_OF_MEMORY"));
    assert!(contains("OUT_OF_MEMORY", "OUT_OF_MEMORY"));
    assert!(!contains("OUT_OF_MEMOR", "OUT_OF_MEMORY"));
    assert!(contains("abc", ""));
    assert!(contains("", ""));
    assert!(contains("aab", "ab"));
}

#[test]
fn fields_of_a_memory_report() {
    let report = "MemTotal:       100 kB\nMemFree:   42 kB\r\nMemFree: 7 kB\nBuffers:\n";
    assert_eq!(meminfo_field(report, "MemFree:"), Some("42".into()));
    assert_eq!(meminfo_field(report, "MemTotal:"), Some("100".into()));
    assert_eq!(meminfo_field(report, "Buffers:"), None);
    assert_eq!(meminfo_field(report, "MemAvailable:"), None);
    assert_eq!(meminfo_field("", "MemFree:"), None);
    assert_eq!(meminfo_field("x MemFree: 1", "MemFree:"), None);
    assert_eq!(
        meminfo_hint("1.5", "2.0", "3.5"),
        " MemFree=1.5 GiB, Buffers=2.0 GiB, MemAvailable=3.5 GiB."
    );
}

#[test]
fn errors_describe_themselves() {
    assert_eq!(SparkError::KernelNotFound("k".into()).message(), "kernel not found: k");
    assert_eq!(
        SparkError::UnsupportedArch { major: 9, minor: 0 }.message(),
        "unsupported GPU architecture: compute capability 9.0, expected 12.1 (SM121)"
    );
    assert_eq!(SparkError::from(failed("D")).message(), "CUDA driver error: D");
    assert_eq!(SparkError::InvalidArgument("m".into()).message(), "invalid argument: m");
    assert_eq!(SparkError::LaunchFailed("m".into()).message(), "kernel launch failed: m");
    assert_eq!(SparkError::Io("m".into()).message(), "I/O error: m");
    assert_eq!(SparkError::Other("m".into()).message(), "m");
}

#[test]
fn arithmetic_on_shapes() {
    assert_eq!(div_ceil(0, 7), 0);
    assert_eq!(div_ceil(7, 7), 1);
    assert_eq!(div_ceil(8, 7), 2);
    assert_eq!(div_ceil(u32::MAX, 1), u32::MAX);
    assert_eq!(div_ceil(u32::MAX, u32::MAX), 1);
    assert_eq!(lesser_of(3, 4), 3);
    assert_eq!(greater_of(3, 4), 4);
    assert_eq!(product(u32::MAX, u32::MAX), 18446744065119617025);
    assert_eq!(triple_product(u32::MAX, 2, 3), 25769803770);
    assert_eq!(truncate(0x1_0000_0005), 5);
}

#[test]
fn numbers_are_written_in_base_ten() {
    assert_eq!(decimal_string(0), "0");
    assert_eq!(decimal_string(9), "9");
    assert_eq!(decimal_string(10), "10");
    assert_eq!(decimal_string(u64::MAX), "18446744073709551615");
}
