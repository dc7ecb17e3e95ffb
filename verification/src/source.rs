use vstd::prelude::*;

verus! {

/// The families of Metal kernels; each one is compiled into a library of its own.
#[derive(Debug, Clone, Copy, PartialEq, Eq, Hash, Structural)]
pub enum Source {
    Affine,
    Binary,
    Cast,
    Conv,
    Fill,
    Gemm,
    Indexing,
    MlxSort,
    Quantized,
    Random,
    Reduce,
    Sort,
    Ternary,
    Unary,
    Sdpa,
}

/// The name of the precompiled library file of each source.
pub open spec fn metallib_filename_of(source: Source) -> Seq<char> {
    match source {
        Source::Affine => "affine.metallib"@,
        Source::Binary => "binary.metallib"@,
        Source::Cast => "cast.metallib"@,
        Source::Conv => "conv.metallib"@,
        Source::Fill => "fill.metallib"@,
        Source::Gemm => "mlx_gemm.metallib"@,
        Source::Indexing => "indexing.metallib"@,
        Source::MlxSort => "mlx_sort.metallib"@,
        Source::Quantized => "quantized.metallib"@,
        Source::Random => "random.metallib"@,
        Source::Reduce => "reduce.metallib"@,
        Source::Sort => "sort.metallib"@,
        Source::Ternary => "ternary.metallib"@,
        Source::Unary => "unary.metallib"@,
        Source::Sdpa => "scaled_dot_product_attention.metallib"@,
    }
}

/// The embedded Metal source file that each library is compiled from.
pub open spec fn library_source_file(source: Source) -> &'static str {
    match source {
        Source::Affine => "metal_src/affine.metal",
        Source::Binary => "metal_src/binary.metal",
        Source::Cast => "metal_src/cast.metal",
        Source::Conv => "metal_src/conv.metal",
        Source::Fill => "metal_src/fill.metal",
        Source::Gemm => "metal_src/mlx_gemm.metal",
        Source::Indexing => "metal_src/indexing.metal",
        Source::MlxSort => "metal_src/mlx_sort.metal",
        Source::Quantized => "metal_src/quantized.metal",
        Source::Random => "metal_src/random.metal",
        Source::Reduce => "metal_src/reduce.metal",
        Source::Sort => "metal_src/sort.metal",
        Source::Ternary => "metal_src/ternary.metal",
        Source::Unary => "metal_src/unary.metal",
        Source::Sdpa => "metal_src/scaled_dot_product_attention.metal",
    }
}

/// The stem shared by the Metal source file of each source and its
/// precompiled library file.
pub open spec fn file_stem(source: Source) -> Seq<char> {
    match source {
        Source::Affine => "affine"@,
        Source::Binary => "binary"@,
        Source::Cast => "cast"@,
        Source::Conv => "conv"@,
        Source::Fill => "fill"@,
        Source::Gemm => "mlx_gemm"@,
        Source::Indexing => "indexing"@,
        Source::MlxSort => "mlx_sort"@,
        Source::Quantized => "quantized"@,
        Source::Random => "random"@,
        Source::Reduce => "reduce"@,
        Source::Sort => "sort"@,
        Source::Ternary => "ternary"@,
        Source::Unary => "unary"@,
        Source::Sdpa => "scaled_dot_product_attention"@,
    }
}

/// The characters at positions 0, 2 and 4 of each precompiled library file
/// name; no two sources share them.
pub open spec fn file_marks(source: Source) -> (char, char, char) {
    match source {
        Source::Affine => ('a', 'f', 'n'),
        Source::Binary => ('b', 'n', 'r'),
        Source::Cast => ('c', 's', '.'),
        Source::Conv => ('c', 'n', '.'),
        Source::Fill => ('f', 'l', '.'),
        Source::Gemm => ('m', 'x', 'g'),
        Source::Indexing => ('i', 'd', 'x'),
        Source::MlxSort => ('m', 'x', 's'),
        Source::Quantized => ('q', 'a', 't'),
        Source::Random => ('r', 'n', 'o'),
        Source::Reduce => ('r', 'd', 'c'),
        Source::Sort => ('s', 'r', '.'),
        Source::Ternary => ('t', 'r', 'a'),
        Source::Unary => ('u', 'a', 'y'),
        Source::Sdpa => ('s', 'a', 'e'),
    }
}

/// The precompiled library file of a source and the Metal source file it is
/// compiled from carry the same stem: `<stem>.metallib` and
/// `metal_src/<stem>.metal`.
pub proof fn lemma_files_share_stem(source: Source)
    ensures
        metallib_filename_of(source) == file_stem(source) + ".metallib"@,
        library_source_file(source)@ == "metal_src/"@ + file_stem(source) + ".metal"@,
        metallib_filename_of(source).len() > 4,
        (metallib_filename_of(source)[0], metallib_filename_of(source)[2], metallib_filename_of(
            source,
        )[4]) == file_marks(source),
        library_source_file(source)@.len() > 14,
        (library_source_file(source)@[10], library_source_file(source)@[12], library_source_file(
            source,
        )@[14]) == file_marks(source),
{
    reveal_strlit(".metallib");
    reveal_strlit("metal_src/");
    reveal_strlit(".metal");
    reveal_strlit("affine");
    reveal_strlit("affine.metallib");
    reveal_strlit("metal_src/affine.metal");
    reveal_strlit("binary");
    reveal_strlit("binary.metallib");
    reveal_strlit("metal_src/binary.metal");
    reveal_strlit("cast");
    reveal_strlit("cast.metallib");
    reveal_strlit("metal_src/cast.metal");
    reveal_strlit("conv");
    reveal_strlit("conv.metallib");
    reveal_strlit("metal_src/conv.metal");
    reveal_strlit("fill");
    reveal_strlit("fill.metallib");
    reveal_strlit("metal_src/fill.metal");
    reveal_strlit("mlx_gemm");
    reveal_strlit("mlx_gemm.metallib");
    reveal_strlit("metal_src/mlx_gemm.metal");
    reveal_strlit("indexing");
    reveal_strlit("indexing.metallib");
    reveal_strlit("metal_src/indexing.metal");
    reveal_strlit("mlx_sort");
    reveal_strlit("mlx_sort.metallib");
    reveal_strlit("metal_src/mlx_sort.metal");
    reveal_strlit("quantized");
    reveal_strlit("quantized.metallib");
    reveal_strlit("metal_src/quantized.metal");
    reveal_strlit("random");
    reveal_strlit("random.metallib");
    reveal_strlit("metal_src/random.metal");
    reveal_strlit("reduce");
    reveal_strlit("reduce.metallib");
    reveal_strlit("metal_src/reduce.metal");
    reveal_strlit("sort");
    reveal_strlit("sort.metallib");
    reveal_strlit("metal_src/sort.metal");
    reveal_strlit("ternary");
    reveal_strlit("ternary.metallib");
    reveal_strlit("metal_src/ternary.metal");
    reveal_strlit("unary");
    reveal_strlit("unary.metallib");
    reveal_strlit("metal_src/unary.metal");
    reveal_strlit("scaled_dot_product_attention");
    reveal_strlit("scaled_dot_product_attention.metallib");
    reveal_strlit("metal_src/scaled_dot_product_attention.metal");
    assert(metallib_filename_of(source) =~= file_stem(source) + ".metallib"@);
    assert(library_source_file(source)@ =~= "metal_src/"@ + file_stem(source) + ".metal"@);
}

/// Distinct sources have distinct stems, hence distinct precompiled library
/// files and distinct Metal source files.
pub proof fn lemma_files_are_distinct(a: Source, b: Source)
    requires
        a != b,
    ensures
        file_stem(a) != file_stem(b),
        metallib_filename_of(a) != metallib_filename_of(b),
        library_source_file(a)@ != library_source_file(b)@,
{
    lemma_files_share_stem(a);
    lemma_files_share_stem(b);
    assert(file_marks(a) != file_marks(b));
}

impl Source {
    /// Returns the metallib filename for this source (e.g. "quantized.metallib").
    pub fn metallib_filename(&self) -> (name: &'static str)
        ensures
            name@ == metallib_filename_of(*self),
    {
        match self {
            Source::Affine => "affine.metallib",
            Source::Binary => "binary.metallib",
            Source::Cast => "cast.metallib",
            Source::Conv => "conv.metallib",
            Source::Fill => "fill.metallib",
            Source::Gemm => "mlx_gemm.metallib",
            Source::Indexing => "indexing.metallib",
            Source::MlxSort => "mlx_sort.metallib",
            Source::Quantized => "quantized.metallib",
            Source::Random => "random.metallib",
            Source::Reduce => "reduce.metallib",
            Source::Sort => "sort.metallib",
            Source::Ternary => "ternary.metallib",
            Source::Unary => "unary.metallib",
            Source::Sdpa => "scaled_dot_product_attention.metallib",
        }
    }
}

/// How many kernel sources there are.
pub const SOURCE_COUNT: usize = 15;

/// The position of each source in a table of `SOURCE_COUNT` slots.
pub open spec fn source_index(source: Source) -> int {
    match source {
        Source::Affine => 0,
        Source::Binary => 1,
        Source::Cast => 2,
        Source::Conv => 3,
        Source::Fill => 4,
        Source::Gemm => 5,
        Source::Indexing => 6,
        Source::MlxSort => 7,
        Source::Quantized => 8,
        Source::Random => 9,
        Source::Reduce => 10,
        Source::Sort => 11,
        Source::Ternary => 12,
        Source::Unary => 13,
        Source::Sdpa => 14,
    }
}

/// Distinct sources have distinct positions, and every position is in the table.
pub proof fn lemma_source_index_in_table(a: Source, b: Source)
    ensures
        0 <= source_index(a) < SOURCE_COUNT,
        source_index(a) == source_index(b) <==> a == b,
{
}

impl Source {
    /// The position of this source in a table of `SOURCE_COUNT` slots.
    pub fn index(&self) -> (i: usize)
        ensures
            i == source_index(*self),
            i < SOURCE_COUNT,
    {
        match self {
            Source::Affine => 0,
            Source::Binary => 1,
            Source::Cast => 2,
            Source::Conv => 3,
            Source::Fill => 4,
            Source::Gemm => 5,
            Source::Indexing => 6,
            Source::MlxSort => 7,
            Source::Quantized => 8,
            Source::Random => 9,
            Source::Reduce => 10,
            Source::Sort => 11,
            Source::Ternary => 12,
            Source::Unary => 13,
            Source::Sdpa => 14,
        }
    }
}

} // verus!
