use freertos_rust::build_target::freertos_port_for;
use freertos_rust::build_target::verify_paths;
use freertos_rust::build_target::BuildInput;
use freertos_rust::build_target::BuildInputs;

#[test]
fn ports_by_target() {
    assert_eq!(freertos_port_for("x86_64-pc-windows-msvc", "x86_64", "windows", "msvc"), Some("MSVC-MingW"));
    assert_eq!(freertos_port_for("x86_64-pc-windows-gnu", "x86_64", "windows", "gnu"), Some("MSVC-MingW"));
    assert_eq!(freertos_port_for("x86_64-unknown-linux-gnu", "x86_64", "linux", "gnu"), Some("GCC/Linux"));
    assert_eq!(freertos_port_for("x86_64-unknown-linux-musl", "x86_64", "linux", "musl"), None);
    assert_eq!(freertos_port_for("thumbv7m-none-eabi", "arm", "none", ""), Some("GCC/ARM_CM3"));
    assert_eq!(freertos_port_for("thumbv7em-none-eabi", "arm", "none", ""), Some("GCC/ARM_CM3"));
    assert_eq!(freertos_port_for("thumbv7em-none-eabihf", "arm", "none", ""), Some("GCC/ARM_CM4F"));
    assert_eq!(
        freertos_port_for("thumbv8m.main-none-eabi", "arm", "none", ""),
        Some("GCC/ARM_CM33_NTZ/non_secure")
    );
    assert_eq!(
        freertos_port_for("thumbv8m.main-none-eabihf", "arm", "none", ""),
        Some("GCC/ARM_CM33_NTZ/non_secure")
    );
    assert_eq!(freertos_port_for("thumbv6m-none-eabi", "arm", "none", ""), None);
    assert_eq!(freertos_port_for("", "", "", ""), None);
    assert_eq!(freertos_port_for("thumbv7m-none-eabi", "x86_64", "windows", ""), Some("MSVC-MingW"));
}

#[test]
fn first_missing_input_is_named() {
    let all = BuildInputs {
        kernel_dir: true,
        port_dir: true,
        include_dir: true,
        heap_file: true,
        config_dir: true,
        shim_file: true,
    };
    assert_eq!(verify_paths(all), Ok(()));
    assert_eq!(verify_paths(BuildInputs { shim_file: false, ..all }), Err(BuildInput::ShimFile));
    assert_eq!(verify_paths(BuildInputs { config_dir: false, shim_file: false, ..all }), Err(BuildInput::ConfigDir));
    assert_eq!(verify_paths(BuildInputs { heap_file: false, ..all }), Err(BuildInput::HeapFile));
    assert_eq!(verify_paths(BuildInputs { include_dir: false, heap_file: false, ..all }), Err(BuildInput::IncludeDir));
    assert_eq!(verify_paths(BuildInputs { port_dir: false, ..all }), Err(BuildInput::PortDir));
    let none = BuildInputs {
        kernel_dir: false,
        port_dir: false,
        include_dir: false,
        heap_file: false,
        config_dir: false,
        shim_file: false,
    };
    assert_eq!(verify_paths(none), Err(BuildInput::KernelDir));
}

#[test]
fn inputs_are_looked_for_in_order() {
    let mut order = vec![BuildInput::first()];
    while let Some(next) = order[order.len() - 1].next() {
        order.push(next);
    }
    assert_eq!(
        order,
        vec![
            BuildInput::KernelDir,
            BuildInput::PortDir,
            BuildInput::IncludeDir,
            BuildInput::HeapFile,
            BuildInput::ConfigDir,
            BuildInput::ShimFile
        ]
    );
}

#[test]
fn messages_of_missing_inputs() {
    assert_eq!(BuildInput::KernelDir.message("some/path"), "Directory freertos_dir does not exist: some/path");
    assert_eq!(BuildInput::PortDir.message("p"), "Directory freertos_port_dir does not exist: p");
    assert_eq!(BuildInput::IncludeDir.message("i"), "Directory freertos_include_dir does not exist: i");
    assert_eq!(BuildInput::HeapFile.message("h"), "File heap_?.c does not exist: h");
    assert_eq!(BuildInput::ConfigDir.message(""), "Directory freertos_config_dir does not exist: ");
    assert_eq!(
        BuildInput::ShimFile.message("shim/shim.c"),
        "File freertos_shim 'shim/shim.c' does not exist, missing freertos-rust dependency?"
    );
}
