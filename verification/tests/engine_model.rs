use vivid::bridge::bundle_args;
use vivid::bridge::bundle_output;
use vivid::bridge::compile_status_info;
use vivid::bridge::compile_status_payload;
use vivid::bridge::initialized_payload;
use vivid::bridge::operator_info;
use vivid::bridge::project_info;
use vivid::check_result;
use vivid::context::compile_status_from_raw;
use vivid::operator::registry_entry_from_parts;
use vivid::operator::texture_info_from_raw;
use vivid::text::u32_to_string;
use vivid::BundleOptions;
use vivid::CompileStatus;
use vivid::ContextConfig;
use vivid::Error;
use vivid::OutputKind;
use vivid::ParamType;
use vivid::RegistryEntry;
use vivid::VividOutputKind;
use vivid::VividParamType;
use vivid::VividResult;

#[test]
fn status_code_success_checks() {
    assert!(VividResult::Success.is_ok());
    assert!(!VividResult::Success.is_err());
    assert!(!VividResult::ErrorNoChain.is_ok());
    assert!(VividResult::ErrorInternal.is_err());
}

#[test]
fn check_result_is_ok_only_for_success() {
    assert_eq!(check_result(VividResult::Success, String::new()), Ok(()));
    assert_eq!(
        check_result(VividResult::ErrorLoadFailed, "missing chain".to_string()),
        Err(Error::LoadFailed("missing chain".to_string()))
    );
}

#[test]
fn every_error_code_maps_to_its_variant() {
    let msg = || "m".to_string();
    assert_eq!(
        Error::from_result(VividResult::ErrorInvalidArgument, msg()),
        Error::InvalidArgument("m".to_string())
    );
    assert_eq!(
        Error::from_result(VividResult::ErrorNotInitialized, msg()),
        Error::NotInitialized
    );
    assert_eq!(
        Error::from_result(VividResult::ErrorLoadFailed, msg()),
        Error::LoadFailed("m".to_string())
    );
    assert_eq!(
        Error::from_result(VividResult::ErrorCompileFailed, msg()),
        Error::CompileFailed("m".to_string())
    );
    assert_eq!(
        Error::from_result(VividResult::ErrorNoChain, msg()),
        Error::NoChain
    );
    assert_eq!(
        Error::from_result(VividResult::ErrorOperatorNotFound, msg()),
        Error::OperatorNotFound("m".to_string())
    );
    assert_eq!(
        Error::from_result(VividResult::ErrorParamNotFound, msg()),
        Error::ParamNotFound("m".to_string())
    );
    assert_eq!(
        Error::from_result(VividResult::ErrorInternal, msg()),
        Error::Internal("m".to_string())
    );
}

#[test]
fn engine_error_messages() {
    assert_eq!(
        Error::InvalidArgument("bad width".to_string()).message(),
        "Invalid argument: bad width"
    );
    assert_eq!(Error::NotInitialized.message(), "Context not initialized");
    assert_eq!(Error::NoChain.message(), "No chain loaded");
    assert_eq!(
        Error::CompileFailed("syntax".to_string()).message(),
        "Compilation failed: syntax"
    );
}

#[test]
fn output_kind_conversion_and_labels() {
    assert_eq!(OutputKind::from(VividOutputKind::Texture), OutputKind::Texture);
    assert_eq!(OutputKind::from(VividOutputKind::Event), OutputKind::Event);
    assert_eq!(OutputKind::Texture.label(), "Texture");
    assert_eq!(OutputKind::AudioValue.label(), "AudioValue");
}

#[test]
fn param_type_conversion_and_labels() {
    assert_eq!(ParamType::from(VividParamType::Float), ParamType::Float);
    assert_eq!(ParamType::from(VividParamType::DeviceList), ParamType::DeviceList);
    assert_eq!(ParamType::Vec3.label(), "Vec3");
    assert_eq!(ParamType::Text.label(), "Text");
}

#[test]
fn texture_info_casts_raw_dimensions() {
    let info = texture_info_from_raw(640, 480, 7, true);
    assert_eq!(info.width, 640);
    assert_eq!(info.height, 480);
    assert_eq!(info.format, 7);
    assert!(info.has_alpha);
    let wrapped = texture_info_from_raw(-1, 2, 0, false);
    assert_eq!(wrapped.width, u32::MAX);
    assert_eq!(wrapped.height, 2);
}

#[test]
fn registry_slots_need_a_name_but_not_a_category() {
    assert_eq!(registry_entry_from_parts(None, Some("Generators".to_string())), None);
    assert_eq!(
        registry_entry_from_parts(Some("Noise".to_string()), Some("Generators".to_string())),
        Some(RegistryEntry {
            name: "Noise".to_string(),
            category: "Generators".to_string(),
        })
    );
    assert_eq!(
        registry_entry_from_parts(Some("Noise".to_string()), None),
        Some(RegistryEntry {
            name: "Noise".to_string(),
            category: "Unknown".to_string(),
        })
    );
}

#[test]
fn context_config_builder() {
    let config = ContextConfig::new(1920, 1080);
    assert_eq!(config.width, 1920);
    assert_eq!(config.height, 1080);
    assert!(!config.enable_validation);
    let config = config.with_validation(true);
    assert!(config.enable_validation);
    let default = ContextConfig::default();
    assert_eq!((default.width, default.height), (1280, 720));
    assert!(!default.enable_validation);
}

#[test]
fn compile_status_treats_nonpositive_positions_as_absent() {
    let status = compile_status_from_raw(false, Some("bang".to_string()), 12, 0);
    assert!(!status.success);
    assert_eq!(status.message.as_deref(), Some("bang"));
    assert_eq!(status.error_line, Some(12));
    assert_eq!(status.error_column, None);
    let clean = compile_status_from_raw(true, None, -1, -1);
    assert!(clean.success);
    assert_eq!(clean.error_line, None);
}

#[test]
fn project_info_derives_the_chain_path() {
    let info = project_info(true, Some("/home/u/proj".to_string()));
    assert!(info.loaded);
    assert_eq!(info.project_path.as_deref(), Some("/home/u/proj"));
    assert_eq!(info.chain_path.as_deref(), Some("/home/u/proj/chain.cpp"));
    let none = project_info(false, None);
    assert!(!none.loaded);
    assert_eq!(none.chain_path, None);
}

#[test]
fn missing_engine_reports_a_clean_compile_status() {
    let info = compile_status_info(None);
    assert!(info.success);
    assert_eq!(info.message, None);
    assert_eq!(info.error_line, None);
    let status = CompileStatus {
        success: false,
        message: Some("err".to_string()),
        error_line: Some(3),
        error_column: Some(9),
    };
    let info = compile_status_info(Some(status.clone()));
    assert!(!info.success);
    assert_eq!(info.error_column, Some(9));
    let payload = compile_status_payload(status);
    assert_eq!(payload.error_line, Some(3));
}

#[test]
fn initialized_payload_reports_success() {
    let payload = initialized_payload(true, Some("/p".to_string()));
    assert!(payload.success);
    assert!(payload.project_loaded);
    assert_eq!(payload.project_path.as_deref(), Some("/p"));
}

#[test]
fn operator_info_counts_its_inputs() {
    let info = operator_info(
        "noise1".to_string(),
        "Noise".to_string(),
        OutputKind::Texture,
        false,
        vec!["in0".to_string(), "in1".to_string()],
    );
    assert_eq!(info.name, "noise1");
    assert_eq!(info.op_type, "Noise");
    assert_eq!(info.output_kind, "Texture");
    assert!(!info.bypassed);
    assert_eq!(info.input_count, 2);
    assert_eq!(info.inputs, vec!["in0".to_string(), "in1".to_string()]);
}

#[test]
fn bundle_args_include_only_set_options() {
    let minimal = BundleOptions {
        project_path: "/p".to_string(),
        output_dir: None,
        app_name: None,
        platform: None,
    };
    assert_eq!(bundle_args(&minimal), vec!["bundle".to_string(), "/p".to_string()]);
    let full = BundleOptions {
        project_path: "/p".to_string(),
        output_dir: Some("/out".to_string()),
        app_name: Some("App".to_string()),
        platform: Some("macos".to_string()),
    };
    assert_eq!(
        bundle_args(&full),
        vec!["bundle", "/p", "-o", "/out", "-n", "App", "-p", "macos"]
            .into_iter()
            .map(String::from)
            .collect::<Vec<_>>()
    );
}

#[test]
fn bundle_output_appends_stderr_when_present() {
    assert_eq!(bundle_output("out".to_string(), ""), "out");
    assert_eq!(bundle_output("out".to_string(), "err"), "out\nerr");
}

#[test]
fn decimal_rendering_of_identifiers() {
    assert_eq!(u32_to_string(0), "0");
    assert_eq!(u32_to_string(42), "42");
    assert_eq!(u32_to_string(4294967295), "4294967295");
}
