use candle_metal_kernels::options::{MathFloatingPointFunctions, MathMode};
use candle_metal_kernels::{CompileSettings, KernelDevice, KernelName, Kernels, Source};
use std::cell::RefCell;

/// A device that records what it is asked and answers as configured.
struct MockDevice {
    /// Files that exist as precompiled libraries, and whether loading them works.
    precompiled: Vec<(String, bool)>,
    /// Whether compiling from source works.
    compile_ok: bool,
    /// Whether building pipelines works.
    pipeline_ok: bool,
    /// The fast-math environment value the device reports.
    fast_math_env: Option<String>,
    /// Whether the device reports math modes.
    math_mode: bool,
    /// The settings of each compilation.
    settings: RefCell<Vec<CompileSettings>>,
    calls: RefCell<Vec<String>>,
}

impl MockDevice {
    fn new() -> Self {
        MockDevice {
            precompiled: Vec::new(),
            compile_ok: true,
            pipeline_ok: true,
            fast_math_env: None,
            math_mode: true,
            settings: RefCell::new(Vec::new()),
            calls: RefCell::new(Vec::new()),
        }
    }

    fn calls(&self) -> Vec<String> {
        self.calls.borrow().clone()
    }
}

impl KernelDevice for MockDevice {
    type Library = String;
    type Function = String;
    type Pipeline = String;
    type ConstantValues = u64;
    type Error = String;

    fn load_precompiled_library(&self, path: &str) -> Option<Result<String, String>> {
        self.calls.borrow_mut().push(format!("precompiled {}", path));
        for (p, ok) in &self.precompiled {
            if p == path {
                return Some(if *ok {
                    Ok(format!("lib from {}", path))
                } else {
                    Err(format!("bad file {}", path))
                });
            }
        }
        None
    }

    fn fast_math_env_value(&self) -> Option<String> {
        self.fast_math_env.clone()
    }

    fn supports_math_mode(&self) -> bool {
        self.math_mode
    }

    fn compile_library(
        &self,
        source_file: &'static str,
        settings: CompileSettings,
    ) -> Result<String, String> {
        self.calls.borrow_mut().push(format!("compile {}", source_file));
        self.settings.borrow_mut().push(settings);
        if self.compile_ok {
            Ok(format!("lib compiled from {}", source_file))
        } else {
            Err(format!("cannot compile {}", source_file))
        }
    }

    fn get_function(
        &self,
        library: &String,
        name: &str,
        constants: Option<&u64>,
    ) -> Result<String, String> {
        self.calls.borrow_mut().push(format!("function {} {:?}", name, constants));
        Ok(format!("{} / {} / {:?}", library, name, constants))
    }

    fn new_compute_pipeline(&self, function: &String) -> Result<String, String> {
        self.calls.borrow_mut().push("pipeline".to_string());
        if self.pipeline_ok {
            Ok(format!("pipeline of {}", function))
        } else {
            Err("no pipeline".to_string())
        }
    }
}

#[test]
fn load_library_compiles_then_caches() {
    let device = MockDevice::new();
    let mut kernels: Kernels<MockDevice> = Kernels::new();
    let first = kernels.load_library(&device, Source::Unary).unwrap();
    assert_eq!(first, "lib compiled from metal_src/unary.metal");
    let second = kernels.load_library(&device, Source::Unary).unwrap();
    assert_eq!(second, first);
    assert_eq!(device.calls(), vec!["compile metal_src/unary.metal".to_string()]);
}

#[test]
fn load_library_caches_each_source_apart() {
    let device = MockDevice::new();
    let mut kernels: Kernels<MockDevice> = Kernels::default();
    let a = kernels.load_library(&device, Source::Affine).unwrap();
    let b = kernels.load_library(&device, Source::Binary).unwrap();
    assert_ne!(a, b);
    assert_eq!(kernels.load_library(&device, Source::Affine).unwrap(), a);
    assert_eq!(device.calls().len(), 2);
}

#[test]
fn load_library_uses_precompiled_file_when_present() {
    let mut device = MockDevice::new();
    device.precompiled.push(("/libs/quantized.metallib".to_string(), true));
    let mut kernels: Kernels<MockDevice> = Kernels::new();
    kernels.set_metallib_dir("/libs".to_string());
    let lib = kernels.load_library(&device, Source::Quantized).unwrap();
    assert_eq!(lib, "lib from /libs/quantized.metallib");
    assert_eq!(device.calls(), vec!["precompiled /libs/quantized.metallib".to_string()]);
}

#[test]
fn load_library_dir_with_trailing_separator() {
    let mut device = MockDevice::new();
    device.precompiled.push(("/libs/mlx_gemm.metallib".to_string(), true));
    let mut kernels: Kernels<MockDevice> = Kernels::new();
    kernels.set_metallib_dir("/libs/".to_string());
    let lib = kernels.load_library(&device, Source::Gemm).unwrap();
    assert_eq!(lib, "lib from /libs/mlx_gemm.metallib");
}

#[test]
fn load_library_falls_back_when_precompiled_missing() {
    let device = MockDevice::new();
    let mut kernels: Kernels<MockDevice> = Kernels::new();
    kernels.set_metallib_dir("/libs".to_string());
    let lib = kernels.load_library(&device, Source::Sdpa).unwrap();
    assert_eq!(lib, "lib compiled from metal_src/scaled_dot_product_attention.metal");
    assert_eq!(
        device.calls(),
        vec![
            "precompiled /libs/scaled_dot_product_attention.metallib".to_string(),
            "compile metal_src/scaled_dot_product_attention.metal".to_string(),
        ]
    );
}

#[test]
fn load_library_falls_back_when_precompiled_fails() {
    let mut device = MockDevice::new();
    device.precompiled.push(("/libs/sort.metallib".to_string(), false));
    let mut kernels: Kernels<MockDevice> = Kernels::new();
    kernels.set_metallib_dir("/libs".to_string());
    let lib = kernels.load_library(&device, Source::Sort).unwrap();
    assert_eq!(lib, "lib compiled from metal_src/sort.metal");
    assert_eq!(device.calls().len(), 2);
}

#[test]
fn load_library_error_is_not_cached() {
    let mut device = MockDevice::new();
    device.compile_ok = false;
    let mut kernels: Kernels<MockDevice> = Kernels::new();
    let err = kernels.load_library(&device, Source::Cast).unwrap_err();
    assert_eq!(err, "cannot compile metal_src/cast.metal");
    device.compile_ok = true;
    let lib = kernels.load_library(&device, Source::Cast).unwrap();
    assert_eq!(lib, "lib compiled from metal_src/cast.metal");
    assert_eq!(device.calls().len(), 2);
}

#[test]
fn set_metallib_dir_keeps_cached_libraries() {
    let mut device = MockDevice::new();
    device.precompiled.push(("/libs/fill.metallib".to_string(), true));
    let mut kernels: Kernels<MockDevice> = Kernels::new();
    let lib = kernels.load_library(&device, Source::Fill).unwrap();
    kernels.set_metallib_dir("/libs".to_string());
    assert_eq!(kernels.load_library(&device, Source::Fill).unwrap(), lib);
    assert_eq!(device.calls().len(), 1);
}

#[test]
fn get_library_source_names_the_embedded_file() {
    let kernels: Kernels<MockDevice> = Kernels::new();
    assert_eq!(kernels.get_library_source(Source::Affine), "metal_src/affine.metal");
    assert_eq!(kernels.get_library_source(Source::Gemm), "metal_src/mlx_gemm.metal");
    assert_eq!(kernels.get_library_source(Source::MlxSort), "metal_src/mlx_sort.metal");
    assert_eq!(
        kernels.get_library_source(Source::Sdpa),
        "metal_src/scaled_dot_product_attention.metal"
    );
}

#[test]
fn load_pipeline_builds_then_caches() {
    let device = MockDevice::new();
    let mut kernels: Kernels<MockDevice> = Kernels::new();
    let p = kernels
        .load_pipeline(&device, Source::Binary, KernelName::from("badd_f32"))
        .unwrap();
    assert_eq!(
        p,
        "pipeline of lib compiled from metal_src/binary.metal / badd_f32 / None"
    );
    let again = kernels
        .load_pipeline(&device, Source::Binary, KernelName::from("badd_f32".to_string()))
        .unwrap();
    assert_eq!(again, p);
    assert_eq!(
        device.calls(),
        vec![
            "compile metal_src/binary.metal".to_string(),
            "function badd_f32 None".to_string(),
            "pipeline".to_string(),
        ]
    );
}

#[test]
fn load_pipeline_constants_are_part_of_the_key() {
    let device = MockDevice::new();
    let mut kernels: Kernels<MockDevice> = Kernels::new();
    let a = kernels
        .load_pipeline_with_constants(&device, Source::Reduce, KernelName::from("sum"), Some(1))
        .unwrap();
    let b = kernels
        .load_pipeline_with_constants(&device, Source::Reduce, KernelName::from("sum"), Some(2))
        .unwrap();
    let c = kernels
        .load_pipeline_with_constants(&device, Source::Reduce, KernelName::from("sum"), None)
        .unwrap();
    assert_ne!(a, b);
    assert_ne!(a, c);
    let a2 = kernels
        .load_pipeline_with_constants(&device, Source::Reduce, KernelName::from("sum"), Some(1))
        .unwrap();
    assert_eq!(a2, a);
    // one compile, three functions, three pipelines
    assert_eq!(device.calls().len(), 7);
}

#[test]
fn load_pipeline_failure_keeps_library_but_not_pipeline() {
    let mut device = MockDevice::new();
    device.pipeline_ok = false;
    let mut kernels: Kernels<MockDevice> = Kernels::new();
    let err = kernels
        .load_pipeline(&device, Source::Ternary, KernelName::from("where_u8"))
        .unwrap_err();
    assert_eq!(err, "no pipeline");
    device.pipeline_ok = true;
    let p = kernels
        .load_pipeline(&device, Source::Ternary, KernelName::from("where_u8"))
        .unwrap();
    assert_eq!(
        p,
        "pipeline of lib compiled from metal_src/ternary.metal / where_u8 / None"
    );
    // the library was compiled once; function and pipeline were asked twice
    let calls = device.calls();
    assert_eq!(calls.iter().filter(|c| c.starts_with("compile")).count(), 1);
    assert_eq!(calls.iter().filter(|c| *c == "pipeline").count(), 2);
}

#[test]
fn load_pipeline_library_failure_is_reported() {
    let mut device = MockDevice::new();
    device.compile_ok = false;
    let mut kernels: Kernels<MockDevice> = Kernels::new();
    let err = kernels
        .load_pipeline(&device, Source::Random, KernelName::from("rand_uniform_f32"))
        .unwrap_err();
    assert_eq!(err, "cannot compile metal_src/random.metal");
    assert_eq!(device.calls().len(), 1);
}

#[test]
fn compile_uses_settings_from_environment_and_system() {
    let mut device = MockDevice::new();
    let mut kernels: Kernels<MockDevice> = Kernels::new();
    kernels.load_library(&device, Source::Affine).unwrap();
    device.fast_math_env = Some("false".to_string());
    kernels.load_library(&device, Source::Binary).unwrap();
    device.math_mode = false;
    kernels.load_library(&device, Source::Cast).unwrap();
    device.fast_math_env = Some("true".to_string());
    kernels.load_library(&device, Source::Conv).unwrap();
    assert_eq!(
        *device.settings.borrow(),
        vec![
            CompileSettings::MathMode { mode: MathMode::Fast, functions: MathFloatingPointFunctions::Fast },
            CompileSettings::MathMode {
                mode: MathMode::Relaxed,
                functions: MathFloatingPointFunctions::Precise
            },
            CompileSettings::FastMathEnabled(false),
            CompileSettings::FastMathEnabled(true),
        ]
    );
}

#[test]
fn precompiled_library_needs_no_settings() {
    let mut device = MockDevice::new();
    device.precompiled.push(("/libs/unary.metallib".to_string(), true));
    let mut kernels: Kernels<MockDevice> = Kernels::new();
    kernels.set_metallib_dir("/libs".to_string());
    kernels.load_library(&device, Source::Unary).unwrap();
    assert!(device.settings.borrow().is_empty());
}
