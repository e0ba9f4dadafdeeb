use arm_toolchain::HostArch;
use arm_toolchain::HostOS;
use arm_toolchain::InstalledToolchain;
use arm_toolchain::ToolchainVersion;
use arm_toolchain::first_token;
use arm_toolchain::range_header_value;
use arm_toolchain::trim_ascii;

#[test]
fn tag_name_strips_prefix_and_suffix() {
    let v = ToolchainVersion::from_tag_name("release-18.1.0-ATfE");
    assert_eq!(v.name, "18.1.0");
}

#[test]
fn tag_name_without_decorations_is_kept() {
    let v = ToolchainVersion::from_tag_name("18.1.0");
    assert_eq!(v.name, "18.1.0");
    let v = ToolchainVersion::from_tag_name("release-18.1.0");
    assert_eq!(v.name, "18.1.0");
    let v = ToolchainVersion::from_tag_name("18.1.0-ATfE");
    assert_eq!(v.name, "18.1.0");
}

#[test]
fn to_tag_name_rebuilds_the_tag() {
    let v = ToolchainVersion::named("20.1.0".to_string());
    assert_eq!(v.to_tag_name(), "release-20.1.0-ATfE");
}

#[test]
fn tag_name_round_trip() {
    let v = ToolchainVersion::named("21.0.0".to_string());
    let back = ToolchainVersion::from_tag_name(v.to_tag_name().as_str());
    assert_eq!(back, v);
}

#[test]
fn version_str_strips_leading_v() {
    assert_eq!(ToolchainVersion::from_version_str("v1.2.3").name, "1.2.3");
    assert_eq!(ToolchainVersion::from_version_str("1.2.3").name, "1.2.3");
    assert_eq!(ToolchainVersion::from_version_str("latest").name, "latest");
}

#[test]
fn display_string_prepends_v() {
    let v = ToolchainVersion::named("18.1.0".to_string());
    assert_eq!(v.display_string(), "v18.1.0");
}

#[test]
fn trim_and_first_token() {
    assert_eq!(trim_ascii(" 18.1.0\n"), "18.1.0");
    assert_eq!(trim_ascii("18.1.0"), "18.1.0");
    assert_eq!(trim_ascii(" \t\n"), "");
    assert_eq!(first_token("abcdef  file.zip\n"), "abcdef");
    assert_eq!(first_token("  lead tail"), "lead");
    assert_eq!(first_token("   "), "");
    assert_eq!(first_token(""), "");
}

#[test]
fn range_header_renders_decimal_bounds() {
    assert_eq!(range_header_value(0, 99), "bytes=0-99");
    assert_eq!(range_header_value(1048576, 10485759), "bytes=1048576-10485759");
    assert_eq!(
        range_header_value(u64::MAX, u64::MAX),
        "bytes=18446744073709551615-18446744073709551615"
    );
}

#[test]
fn installed_toolchain_derives_paths_by_joining() {
    let t = InstalledToolchain::new("/data/llvm-toolchains/18.1.0".to_string());
    assert_eq!(t.host_bin_dir(), "/data/llvm-toolchains/18.1.0/bin");
    assert_eq!(t.lib_dir(), "/data/llvm-toolchains/18.1.0/lib");
    assert_eq!(t.multilib_dir(), "/data/llvm-toolchains/18.1.0/lib/clang-runtimes");
    assert_eq!(
        t.target_lib_dir("arm-none-eabi", "armv7m_soft_nofp"),
        "/data/llvm-toolchains/18.1.0/lib/clang-runtimes/arm-none-eabi/armv7m_soft_nofp/lib"
    );
    let incs = t.target_include_dirs("arm-none-eabi", "armv7m_soft_nofp");
    assert_eq!(incs.len(), 2);
    assert_eq!(
        incs[0],
        "/data/llvm-toolchains/18.1.0/lib/clang-runtimes/arm-none-eabi/armv7m_soft_nofp/include"
    );
    assert_eq!(
        incs[1],
        "/data/llvm-toolchains/18.1.0/lib/clang-runtimes/arm-none-eabi/include"
    );
}

#[test]
fn host_tokens() {
    assert_eq!(HostOS::Darwin.token(), "Darwin");
    assert_eq!(HostOS::Linux.token(), "Linux");
    assert_eq!(HostOS::Windows.token(), "Windows");
    assert_eq!(HostArch::Universal.token(), "universal");
    assert_eq!(HostArch::AAarch64.token(), "AAarch64");
    assert_eq!(HostArch::X86_64.token(), "x86_64");
    assert!(matches!(HostOS::current(), HostOS::Linux));
    assert_eq!(HostArch::current(), vec![HostArch::X86_64]);
}
