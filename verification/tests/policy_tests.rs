use groth16_verifier::policy::{
    ceil_log2, parse_accelerator_policy, select_multiexp_backend, AcceleratorPolicy,
};

#[test]
fn parse_recognizes_the_three_values() {
    assert_eq!(parse_accelerator_policy("auto"), Some(AcceleratorPolicy::Auto));
    assert_eq!(parse_accelerator_policy("cpu"), Some(AcceleratorPolicy::Cpu));
    assert_eq!(parse_accelerator_policy("gpu"), Some(AcceleratorPolicy::Gpu));
}

#[test]
fn parse_is_case_insensitive() {
    assert_eq!(parse_accelerator_policy("AUTO"), Some(AcceleratorPolicy::Auto));
    assert_eq!(parse_accelerator_policy("Auto"), Some(AcceleratorPolicy::Auto));
    assert_eq!(parse_accelerator_policy("CPU"), Some(AcceleratorPolicy::Cpu));
    assert_eq!(parse_accelerator_policy("Gpu"), Some(AcceleratorPolicy::Gpu));
}

#[test]
fn parse_rejects_unknown_values() {
    // An unrecognized policy is a fatal configuration error for the process
    // around the library; parsing reports it before any verification work.
    assert_eq!(parse_accelerator_policy("quantum"), None);
    assert_eq!(parse_accelerator_policy(""), None);
    assert_eq!(parse_accelerator_policy("gpu "), None);
    assert_eq!(parse_accelerator_policy("cuda"), None);
    assert_eq!(parse_accelerator_policy("aut0"), None);
}

#[test]
fn select_stays_on_cpu_for_auto_and_cpu() {
    assert_eq!(select_multiexp_backend(AcceleratorPolicy::Auto, 1000), None);
    assert_eq!(select_multiexp_backend(AcceleratorPolicy::Cpu, 1000), None);
}

#[test]
fn select_sizes_the_kernel_for_gpu() {
    assert_eq!(select_multiexp_backend(AcceleratorPolicy::Gpu, 0), Some(0));
    assert_eq!(select_multiexp_backend(AcceleratorPolicy::Gpu, 1), Some(0));
    assert_eq!(select_multiexp_backend(AcceleratorPolicy::Gpu, 2), Some(1));
    assert_eq!(select_multiexp_backend(AcceleratorPolicy::Gpu, 5), Some(3));
    assert_eq!(select_multiexp_backend(AcceleratorPolicy::Gpu, 8), Some(3));
    assert_eq!(select_multiexp_backend(AcceleratorPolicy::Gpu, 9), Some(4));
}

#[test]
fn ceil_log2_exact_values() {
    assert_eq!(ceil_log2(0), 0);
    assert_eq!(ceil_log2(1), 0);
    assert_eq!(ceil_log2(2), 1);
    assert_eq!(ceil_log2(3), 2);
    assert_eq!(ceil_log2(4), 2);
    assert_eq!(ceil_log2(1023), 10);
    assert_eq!(ceil_log2(1024), 10);
    assert_eq!(ceil_log2(1025), 11);
}
