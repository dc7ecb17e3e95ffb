use candle_metal_kernels::{KernelName, Kernels, Source};
use std::collections::hash_map::DefaultHasher;
use std::hash::{Hash, Hasher};

fn hash_of(name: &KernelName) -> u64 {
    let mut h = DefaultHasher::new();
    name.hash(&mut h);
    h.finish()
}

#[test]
fn kernel_name_borrowed_and_owned_are_equal() {
    let a = KernelName::from("copy_f32");
    let b = KernelName::from("copy_f32".to_string());
    assert!(a == b);
    assert_eq!(hash_of(&a), hash_of(&b));
    assert!(KernelName::from("copy_f32") != KernelName::from("copy_f16"));
    assert!(KernelName::from("") == KernelName::from(String::new()));
    assert!(KernelName::from("ab") != KernelName::from("abc"));
}

#[test]
fn kernel_name_as_ref_gives_the_text() {
    assert_eq!(KernelName::from("affine_f32").as_ref(), "affine_f32");
    assert_eq!(KernelName::from("gemm".to_string()).as_ref(), "gemm");
    let owned = KernelName::from("copy".to_string());
    let via_trait: &str = AsRef::<str>::as_ref(&owned);
    assert_eq!(via_trait, "copy");
}

#[test]
fn kernel_name_from_keeps_the_variant() {
    assert!(matches!(KernelName::from("a"), KernelName::Ref("a")));
    assert!(matches!(KernelName::from("a".to_string()), KernelName::Value(ref v) if v == "a"));
}

#[test]
fn metallib_filenames() {
    let expected = [
        (Source::Affine, "affine.metallib"),
        (Source::Binary, "binary.metallib"),
        (Source::Cast, "cast.metallib"),
        (Source::Conv, "conv.metallib"),
        (Source::Fill, "fill.metallib"),
        (Source::Gemm, "mlx_gemm.metallib"),
        (Source::Indexing, "indexing.metallib"),
        (Source::MlxSort, "mlx_sort.metallib"),
        (Source::Quantized, "quantized.metallib"),
        (Source::Random, "random.metallib"),
        (Source::Reduce, "reduce.metallib"),
        (Source::Sort, "sort.metallib"),
        (Source::Ternary, "ternary.metallib"),
        (Source::Unary, "unary.metallib"),
        (Source::Sdpa, "scaled_dot_product_attention.metallib"),
    ];
    for (source, name) in expected.iter() {
        assert_eq!(source.metallib_filename(), *name);
    }
    // every source has a file of its own, with the .metallib extension
    for (i, (a, _)) in expected.iter().enumerate() {
        assert!(a.metallib_filename().ends_with(".metallib"));
        for (b, _) in expected.iter().skip(i + 1) {
            assert_ne!(a.metallib_filename(), b.metallib_filename());
        }
    }
}

#[test]
fn source_indices_fill_the_table() {
    let all = [
        Source::Affine,
        Source::Binary,
        Source::Cast,
        Source::Conv,
        Source::Fill,
        Source::Gemm,
        Source::Indexing,
        Source::MlxSort,
        Source::Quantized,
        Source::Random,
        Source::Reduce,
        Source::Sort,
        Source::Ternary,
        Source::Unary,
        Source::Sdpa,
    ];
    for (i, s) in all.iter().enumerate() {
        assert_eq!(s.index(), i);
    }
    assert_eq!(all.len(), candle_metal_kernels::source::SOURCE_COUNT);
}

struct NoDevice;

impl candle_metal_kernels::KernelDevice for NoDevice {
    type Library = ();
    type Function = ();
    type Pipeline = ();
    type ConstantValues = u8;
    type Error = ();
    fn load_precompiled_library(&self, _path: &str) -> Option<Result<(), ()>> {
        None
    }
    fn fast_math_env_value(&self) -> Option<String> {
        None
    }
    fn supports_math_mode(&self) -> bool {
        true
    }
    fn compile_library(
        &self,
        _source_file: &'static str,
        _settings: candle_metal_kernels::CompileSettings,
    ) -> Result<(), ()> {
        Ok(())
    }
    fn get_function(&self, _l: &(), _n: &str, _c: Option<&u8>) -> Result<(), ()> {
        Ok(())
    }
    fn new_compute_pipeline(&self, _f: &()) -> Result<(), ()> {
        Ok(())
    }
}

#[test]
fn precompiled_file_and_source_file_share_the_stem() {
    let kernels: Kernels<NoDevice> = Kernels::new();
    for s in [Source::Affine, Source::Gemm, Source::MlxSort, Source::Sdpa, Source::Conv] {
        let stem = s.metallib_filename().strip_suffix(".metallib").unwrap();
        assert_eq!(kernels.get_library_source(s), format!("metal_src/{}.metal", stem));
    }
}
