use vstd::prelude::*;
use vstd::std_specs::cmp::{PartialEqSpec, PartialEqSpecImpl};
use vstd::std_specs::convert::FromSpecImpl;
use vstd::pervasive::cloned;
use crate::source::{Source, SOURCE_COUNT, source_index, library_source_file, metallib_filename_of};
use crate::text::{same_text, joined_path, joined_path_of};
use crate::options::{CompileSettings, compile_settings, compile_settings_of, fast_math_enabled, fast_math_of};

verus! {

/// The name of a kernel function inside a Metal library, either borrowed
/// from a static string or owned.
#[derive(Debug, Clone)]
pub enum KernelName {
    Ref(&'static str),
    Value(String),
}

impl View for KernelName {
    type V = Seq<char>;

    /// The characters of the name, whichever way it is held.
    open spec fn view(&self) -> Seq<char> {
        match self {
            KernelName::Ref(r) => r@,
            KernelName::Value(v) => v@,
        }
    }
}

impl KernelName {
    /// The name as a string slice.
    pub fn as_ref(&self) -> (s: &str)
        ensures
            s@ == self@,
    {
        match self {
            KernelName::Ref(r) => r,
            KernelName::Value(v) => v.as_str(),
        }
    }
}

impl AsRef<str> for KernelName {
    fn as_ref(&self) -> &str {
        KernelName::as_ref(self)
    }
}

impl PartialEq for KernelName {
    fn eq(&self, other: &Self) -> (r: bool) {
        same_text(self.as_ref(), other.as_ref())
    }
}

impl PartialEqSpecImpl for KernelName {
    open spec fn obeys_eq_spec() -> bool {
        true
    }

    /// Two names are equal when they hold the same characters, borrowed or owned.
    open spec fn eq_spec(&self, other: &Self) -> bool {
        self@ == other@
    }
}

impl Eq for KernelName {
}

/// `Hash` of `str` from std, which feeds the string to the hasher. Nothing is claimed of what it does to the hasher.
pub assume_specification<H: core::hash::Hasher>[ <str as core::hash::Hash>::hash::<H> ](
    data: &str,
    state: &mut H,
);

/// Hashes the characters only, so that a borrowed and an owned name with the
/// same text, which are equal, hash alike.
impl core::hash::Hash for KernelName {
    fn hash<H: core::hash::Hasher>(&self, state: &mut H) {
        self.as_ref().hash(state)
    }
}

impl From<&'static str> for KernelName {
    fn from(value: &'static str) -> (r: Self) {
        KernelName::Ref(value)
    }
}

impl FromSpecImpl<&'static str> for KernelName {
    open spec fn obeys_from_spec() -> bool {
        true
    }

    open spec fn from_spec(v: &'static str) -> Self {
        KernelName::Ref(v)
    }
}

impl From<String> for KernelName {
    fn from(value: String) -> (r: Self) {
        KernelName::Value(value)
    }
}

impl FromSpecImpl<String> for KernelName {
    open spec fn obeys_from_spec() -> bool {
        true
    }

    open spec fn from_spec(v: String) -> Self {
        KernelName::Value(v)
    }
}

/// A borrowed name and an owned name with the same characters are the same
/// kernel name, and names with different characters are different.
pub proof fn lemma_kernel_name_eq_by_text(a: KernelName, b: KernelName)
    ensures
        PartialEqSpec::eq_spec(&a, &b) <==> a@ == b@,
        PartialEqSpec::eq_spec(&a, &a),
        PartialEqSpec::eq_spec(&a, &b) ==> PartialEqSpec::eq_spec(&b, &a),
{
}

/// What loading kernels asks of the GPU device. The Metal device implements
/// it; every answer is taken as it comes.
pub trait KernelDevice {
    /// A compiled library of kernels; cloning it gives another handle to it.
    type Library: Clone;
    /// One kernel function taken from a library.
    type Function;
    /// A compute pipeline built from a kernel function.
    type Pipeline: Clone;
    /// Values given to the function constants of a kernel.
    type ConstantValues: PartialEq;
    /// What a failed device operation reports.
    type Error;

    /// Loads the precompiled library file at `path`; `None` when no such file exists.
    fn load_precompiled_library(&self, path: &str) -> Option<Result<Self::Library, Self::Error>>;

    /// The value of the environment variable `FAST_MATH_ENV`, if it is set.
    fn fast_math_env_value(&self) -> Option<String>;

    /// Whether the system has the math mode compiler settings
    /// (macOS 15, iOS 18 and later).
    fn supports_math_mode(&self) -> bool;

    /// Compiles the embedded Metal source file `source_file` into a library,
    /// with the compiler set up as `settings` says.
    fn compile_library(
        &self,
        source_file: &'static str,
        settings: CompileSettings,
    ) -> Result<Self::Library, Self::Error>;

    /// Takes the kernel function `name` out of `library`, specialised with `constants`.
    fn get_function(
        &self,
        library: &Self::Library,
        name: &str,
        constants: Option<&Self::ConstantValues>,
    ) -> Result<Self::Function, Self::Error>;

    /// Builds a compute pipeline for `function`.
    fn new_compute_pipeline(&self, function: &Self::Function) -> Result<Self::Pipeline, Self::Error>;
}

/// The key under which a compute pipeline is cached: the kernel name's text
/// and the constant values it was specialised with.
pub open spec fn pipeline_key<C, P>(entry: (KernelName, Option<C>, P)) -> (Seq<char>, Option<C>) {
    (entry.0@, entry.1)
}

/// Two cache keys are the same key: the names have the same text and the
/// constant values are equal by `==`.
pub open spec fn same_key<C: PartialEq>(a: (Seq<char>, Option<C>), b: (Seq<char>, Option<C>)) -> bool {
    a.0 == b.0 && PartialEqSpec::eq_spec(&a.1, &b.1)
}

/// `==` on `C` is described by its spec and is an equivalence, as `Eq` promises.
pub open spec fn lawful_eq<C: PartialEq>() -> bool {
    &&& <C as PartialEqSpec>::obeys_eq_spec()
    &&& forall|x: C| #[trigger] PartialEqSpec::eq_spec(&x, &x)
    &&& forall|x: C, y: C| #[trigger] PartialEqSpec::eq_spec(&x, &y) ==> PartialEqSpec::eq_spec(&y, &x)
    &&& forall|x: C, y: C, z: C|
        #[trigger] PartialEqSpec::eq_spec(&x, &y) && #[trigger] PartialEqSpec::eq_spec(&y, &z)
            ==> PartialEqSpec::eq_spec(&x, &z)
}

/// Entry `i` of a pipeline cache is the first one under a key that is the
/// same as `key`.
pub open spec fn is_first_match<C: PartialEq, P>(
    cache: Seq<((Seq<char>, Option<C>), P)>,
    key: (Seq<char>, Option<C>),
    i: int,
) -> bool {
    &&& 0 <= i < cache.len()
    &&& same_key(cache[i].0, key)
    &&& forall|j: int| 0 <= j < i ==> !same_key(#[trigger] cache[j].0, key)
}

/// The pipeline that a cache holds under `key`: that of the first entry
/// under the same key, if any.
pub open spec fn cached_pipeline<C: PartialEq, P>(
    cache: Seq<((Seq<char>, Option<C>), P)>,
    key: (Seq<char>, Option<C>),
) -> Option<P> {
    if exists|i: int| #[trigger] is_first_match(cache, key, i) {
        Some(cache[choose|i: int| is_first_match(cache, key, i)].1)
    } else {
        None
    }
}

/// There is at most one first entry under a key.
pub proof fn lemma_first_match_unique<C: PartialEq, P>(
    cache: Seq<((Seq<char>, Option<C>), P)>,
    key: (Seq<char>, Option<C>),
    i: int,
    j: int,
)
    requires
        is_first_match(cache, key, i),
        is_first_match(cache, key, j),
    ensures
        i == j,
{
    if j < i {
        assert(!same_key(cache[j].0, key));
    } else if i < j {
        assert(!same_key(cache[i].0, key));
    }
}

/// When some entry is under a key, a first one is.
pub proof fn lemma_first_match_exists<C: PartialEq, P>(
    cache: Seq<((Seq<char>, Option<C>), P)>,
    key: (Seq<char>, Option<C>),
    i: int,
)
    requires
        0 <= i < cache.len(),
        same_key(cache[i].0, key),
    ensures
        exists|k: int| #[trigger] is_first_match(cache, key, k),
    decreases i,
{
    if exists|j: int| 0 <= j < i && #[trigger] same_key(cache[j].0, key) {
        let j = choose|j: int| 0 <= j < i && #[trigger] same_key(cache[j].0, key);
        lemma_first_match_exists(cache, key, j);
    } else {
        assert(is_first_match(cache, key, i));
    }
}

/// With a lawful `==`, being the same key is an equivalence.
pub proof fn lemma_same_key_equivalence<C: PartialEq>(
    a: (Seq<char>, Option<C>),
    b: (Seq<char>, Option<C>),
    c: (Seq<char>, Option<C>),
)
    requires
        lawful_eq::<C>(),
    ensures
        same_key(a, a),
        same_key(a, b) ==> same_key(b, a),
        same_key(a, b) && same_key(b, c) ==> same_key(a, c),
{
    match (a.1, b.1, c.1) {
        (Some(x), Some(y), Some(z)) => {
            assert(PartialEqSpec::eq_spec(&x, &x));
            if PartialEqSpec::eq_spec(&x, &y) {
                assert(PartialEqSpec::eq_spec(&y, &x));
                if PartialEqSpec::eq_spec(&y, &z) {
                    assert(PartialEqSpec::eq_spec(&x, &z));
                }
            }
        },
        (Some(x), Some(y), None) => {
            assert(PartialEqSpec::eq_spec(&x, &x));
            if PartialEqSpec::eq_spec(&x, &y) {
                assert(PartialEqSpec::eq_spec(&y, &x));
            }
        },
        (Some(x), None, _) => {
            assert(PartialEqSpec::eq_spec(&x, &x));
        },
        (None, Some(y), _) => {},
        (None, None, _) => {},
    }
}

/// With a lawful `==`, a cache holds the same pipeline under keys that are
/// the same key.
pub proof fn lemma_cached_pipeline_by_same_key<C: PartialEq, P>(
    cache: Seq<((Seq<char>, Option<C>), P)>,
    k1: (Seq<char>, Option<C>),
    k2: (Seq<char>, Option<C>),
)
    requires
        lawful_eq::<C>(),
        same_key(k1, k2),
    ensures
        cached_pipeline(cache, k1) == cached_pipeline(cache, k2),
{
    lemma_same_key_equivalence(k1, k2, k1);
    assert forall|i: int| is_first_match(cache, k1, i) <==> is_first_match(cache, k2, i) by {
        lemma_same_key_equivalence(cache[i].0, k1, k2);
        lemma_same_key_equivalence(cache[i].0, k2, k1);
        assert forall|j: int| 0 <= j < i implies (same_key(cache[j].0, k1) <==> same_key(
            cache[j].0,
            k2,
        )) by {
            lemma_same_key_equivalence(cache[j].0, k1, k2);
            lemma_same_key_equivalence(cache[j].0, k2, k1);
        }
    }
    if exists|i: int| #[trigger] is_first_match(cache, k1, i) {
        let i1 = choose|i: int| is_first_match(cache, k1, i);
        let i2 = choose|i: int| is_first_match(cache, k2, i);
        assert(is_first_match(cache, k2, i1));
        lemma_first_match_unique(cache, k2, i1, i2);
    }
}

/// Where the precompiled library of `source` lies when the precompiled
/// libraries are kept in `dir`.
pub open spec fn metallib_path_of(dir: Seq<char>, source: Source) -> Seq<char> {
    joined_path_of(dir, metallib_filename_of(source))
}

/// `pre` is what looking for a precompiled library of `source` can give:
/// nothing when no directory is set, else what the device answers for the
/// file of `source` in that directory.
pub open spec fn precompiled_outcome<D: KernelDevice>(
    dir: Option<Seq<char>>,
    device: &D,
    source: Source,
    pre: Option<Result<D::Library, D::Error>>,
) -> bool {
    match dir {
        None => pre is None,
        Some(d) => exists|p: &str|
            p@ == metallib_path_of(d, source) && #[trigger] call_ensures(
                D::load_precompiled_library,
                (device, p),
                pre,
            ),
    }
}

/// The environment value as text.
pub open spec fn env_text(value: Option<String>) -> Option<Seq<char>> {
    match value {
        Some(v) => Some(v@),
        None => None,
    }
}

/// `r` is what the device can answer when compiling the embedded source of
/// `source`, with the compiler settings that the fast-math variable and the
/// system's support for math modes, as the device reports them, call for.
pub open spec fn compiled_outcome<D: KernelDevice>(
    device: &D,
    source: Source,
    r: Result<D::Library, D::Error>,
) -> bool {
    exists|env: Option<String>, math_mode: bool|
        #[trigger] call_ensures(D::fast_math_env_value, (device,), env) && #[trigger] call_ensures(
            D::supports_math_mode,
            (device,),
            math_mode,
        ) && call_ensures(
            D::compile_library,
            (
                device,
                library_source_file(source),
                compile_settings_of(fast_math_of(env_text(env)), math_mode),
            ),
            r,
        )
}

/// `r` is what loading `source` afresh can give: the precompiled library when
/// one was found and loaded, else the outcome of compiling its source.
pub open spec fn fresh_library_outcome<D: KernelDevice>(
    dir: Option<Seq<char>>,
    device: &D,
    source: Source,
    r: Result<D::Library, D::Error>,
) -> bool {
    exists|pre: Option<Result<D::Library, D::Error>>|
        #[trigger] precompiled_outcome(dir, device, source, pre) && match pre {
            Some(Ok(lib)) => r == Ok::<D::Library, D::Error>(lib),
            _ => compiled_outcome(device, source, r),
        }
}

/// One call of `load_library` for `source`, which takes the library cache from
/// `before` to `after` and returns `r`: a cached library is handed out as a
/// clone and nothing changes; otherwise the library is loaded afresh, and kept
/// (as a clone of what is returned) only when that succeeded.
pub open spec fn library_load<D: KernelDevice>(
    before: Map<Source, D::Library>,
    after: Map<Source, D::Library>,
    dir: Option<Seq<char>>,
    device: &D,
    source: Source,
    r: Result<D::Library, D::Error>,
) -> bool {
    if before.contains_key(source) {
        &&& r is Ok
        &&& cloned(before[source], r->Ok_0)
        &&& after == before
    } else {
        &&& fresh_library_outcome(dir, device, source, r)
        &&& match r {
            Ok(lib) => {
                &&& after.contains_key(source)
                &&& cloned(lib, after[source])
                &&& after == before.insert(source, after[source])
            },
            Err(_) => after == before,
        }
    }
}

/// The constant values as handed to the device: by reference.
pub open spec fn constants_ref<C>(constants: &Option<C>) -> Option<&C> {
    match constants {
        Some(c) => Some(c),
        None => None,
    }
}

/// `r` is what taking the kernel `name` out of the library outcome `lib` can
/// give: the library's error, or the device's answer for that library.
pub open spec fn function_outcome<D: KernelDevice>(
    device: &D,
    lib: Result<D::Library, D::Error>,
    name: Seq<char>,
    constants: Option<&D::ConstantValues>,
    r: Result<D::Function, D::Error>,
) -> bool {
    match lib {
        Err(e) => r == Err::<D::Function, D::Error>(e),
        Ok(l) => exists|n: &str|
            n@ == name && #[trigger] call_ensures(D::get_function, (device, &l, n, constants), r),
    }
}

/// One call of `load_function`: the library of `source` is loaded as by
/// `load_library`, then the kernel is taken out of it.
pub open spec fn function_load<D: KernelDevice>(
    before: Map<Source, D::Library>,
    after: Map<Source, D::Library>,
    dir: Option<Seq<char>>,
    device: &D,
    source: Source,
    name: Seq<char>,
    constants: Option<&D::ConstantValues>,
    r: Result<D::Function, D::Error>,
) -> bool {
    exists|lib: Result<D::Library, D::Error>|
        #[trigger] library_load(before, after, dir, device, source, lib) && function_outcome(
            device,
            lib,
            name,
            constants,
            r,
        )
}

/// One call of `load_pipeline_with_constants`: a pipeline cached under the
/// same key is handed out as a clone and nothing changes; otherwise the kernel
/// is loaded and a pipeline built from it, and the pipeline is kept (as a
/// clone of what is returned, at the end of the cache) only when every step
/// succeeded. The library loaded on the way stays cached even when a later
/// step fails.
pub open spec fn pipeline_load<D: KernelDevice>(
    libs_before: Map<Source, D::Library>,
    libs_after: Map<Source, D::Library>,
    pipes_before: Seq<((Seq<char>, Option<D::ConstantValues>), D::Pipeline)>,
    pipes_after: Seq<((Seq<char>, Option<D::ConstantValues>), D::Pipeline)>,
    dir: Option<Seq<char>>,
    device: &D,
    source: Source,
    name: Seq<char>,
    constants: Option<D::ConstantValues>,
    r: Result<D::Pipeline, D::Error>,
) -> bool {
    let key = (name, constants);
    match cached_pipeline(pipes_before, key) {
        Some(p) => {
            &&& r is Ok
            &&& cloned(p, r->Ok_0)
            &&& libs_after == libs_before
            &&& pipes_after == pipes_before
        },
        None => exists|f: Result<D::Function, D::Error>|
            #[trigger] function_load(
                libs_before,
                libs_after,
                dir,
                device,
                source,
                name,
                constants_ref(&constants),
                f,
            ) && match f {
                Err(e) => r == Err::<D::Pipeline, D::Error>(e) && pipes_after == pipes_before,
                Ok(func) => {
                    &&& call_ensures(D::new_compute_pipeline, (device, &func), r)
                    &&& match r {
                        Ok(p) => {
                            &&& pipes_after.len() == pipes_before.len() + 1
                            &&& cloned(p, pipes_after.last().1)
                            &&& pipes_after == pipes_before.push((key, pipes_after.last().1))
                        },
                        Err(_) => pipes_after == pipes_before,
                    }
                },
            },
    }
}

/// Caches of loaded Metal libraries and compute pipelines, and the directory
/// where precompiled libraries are looked for.
pub struct Kernels<D: KernelDevice> {
    libraries: Vec<Option<D::Library>>,
    pipelines: Vec<(KernelName, Option<D::ConstantValues>, D::Pipeline)>,
    /// Optional directory containing pre-compiled .metallib files.
    /// When set, `load_library` tries loading from here before falling back
    /// to runtime source compilation.
    metallib_dir: Option<String>,
}

impl<D: KernelDevice> Kernels<D> {
    /// One library slot per source.
    pub closed spec fn wf(&self) -> bool {
        self.libraries.len() == SOURCE_COUNT
    }

    /// The cached libraries, by source.
    pub closed spec fn library_cache(&self) -> Map<Source, D::Library> {
        Map::new(
            |s: Source| self.libraries@[source_index(s)] is Some,
            |s: Source| self.libraries@[source_index(s)]->Some_0,
        )
    }

    /// The cached compute pipelines with their keys, in the order they were kept.
    pub closed spec fn pipeline_cache(&self) -> Seq<((Seq<char>, Option<D::ConstantValues>), D::Pipeline)> {
        Seq::new(
            self.pipelines.len() as nat,
            |i: int| (pipeline_key(self.pipelines@[i]), self.pipelines@[i].2),
        )
    }

    /// The directory of precompiled libraries, if one is set.
    pub closed spec fn metallib_dir(&self) -> Option<Seq<char>> {
        match self.metallib_dir {
            Some(d) => Some(d@),
            None => None,
        }
    }

    /// Empty caches, and no directory of precompiled libraries.
    pub fn new() -> (k: Self)
        ensures
            k.wf(),
            k.library_cache() == Map::<Source, D::Library>::empty(),
            k.pipeline_cache() == Seq::<((Seq<char>, Option<D::ConstantValues>), D::Pipeline)>::empty(),
            k.metallib_dir() is None,
    {
        let mut libraries: Vec<Option<D::Library>> = Vec::new();
        let mut i: usize = 0;
        while i < SOURCE_COUNT
            invariant
                i <= SOURCE_COUNT,
                libraries.len() == i,
                forall|j: int| 0 <= j < i ==> libraries@[j] is None,
            decreases SOURCE_COUNT - i,
        {
            libraries.push(None);
            i = i + 1;
        }
        let k = Kernels { libraries, pipelines: Vec::new(), metallib_dir: None };
        assert(k.library_cache() =~= Map::<Source, D::Library>::empty());
        assert(k.pipeline_cache() =~= Seq::<((Seq<char>, Option<D::ConstantValues>), D::Pipeline)>::empty());
        k
    }

    /// Set the directory containing pre-compiled `.metallib` files.
    ///
    /// When set, `load_library` will attempt to load the pre-compiled binary
    /// before falling back to runtime source compilation.
    pub fn set_metallib_dir(&mut self, path: String)
        requires
            old(self).wf(),
        ensures
            final(self).wf(),
            final(self).metallib_dir() == Some(path@),
            final(self).library_cache() == old(self).library_cache(),
            final(self).pipeline_cache() == old(self).pipeline_cache(),
    {
        self.metallib_dir = Some(path);
    }

    /// Try loading a pre-compiled .metallib file if a metallib_dir is set.
    fn try_load_metallib(&self, device: &D, source: Source) -> (pre: Option<
        Result<D::Library, D::Error>,
    >)
        ensures
            precompiled_outcome(self.metallib_dir(), device, source, pre),
    {
        match &self.metallib_dir {
            None => None,
            Some(dir) => {
                let filename = source.metallib_filename();
                let path = joined_path(dir.as_str(), filename);
                let p = path.as_str();
                let pre = device.load_precompiled_library(p);
                assert(call_ensures(D::load_precompiled_library, (device, p), pre));
                pre
            },
        }
    }

    /// Compile a library from embedded Metal source.
    fn compile_from_source(&self, device: &D, source: Source) -> (r: Result<D::Library, D::Error>)
        ensures
            compiled_outcome(device, source, r),
    {
        let source_file = self.get_library_source(source);
        let env = device.fast_math_env_value();
        let math_mode = device.supports_math_mode();
        let fast_math = match &env {
            Some(v) => fast_math_enabled(Some(v.as_str())),
            None => fast_math_enabled(None),
        };
        let settings = compile_settings(fast_math, math_mode);
        let r = device.compile_library(source_file, settings);
        assert(call_ensures(D::fast_math_env_value, (device,), env));
        assert(call_ensures(D::supports_math_mode, (device,), math_mode));
        r
    }

    /// Load the given library from its [`source`].
    /// If this has been previously loaded it will just fetch it from cache.
    ///
    /// When a `metallib_dir` is configured, tries loading the pre-compiled
    /// `.metallib` first. Falls back to runtime source compilation if the
    /// metallib is not found or fails to load.
    pub fn load_library(&mut self, device: &D, source: Source) -> (r: Result<D::Library, D::Error>)
        requires
            old(self).wf(),
        ensures
            final(self).wf(),
            library_load(
                old(self).library_cache(),
                final(self).library_cache(),
                old(self).metallib_dir(),
                device,
                source,
                r,
            ),
            final(self).pipeline_cache() == old(self).pipeline_cache(),
            final(self).metallib_dir() == old(self).metallib_dir(),
    {
        let i = source.index();
        proof {
            assert forall|t: Source| source_index(t) == i implies t == source by {
                crate::source::lemma_source_index_in_table(t, source);
            }
        }
        match &self.libraries[i] {
            Some(lib) => {
                let l = lib.clone();
                return Ok(l);
            },
            None => {},
        }
        let metallib_result = self.try_load_metallib(device, source);
        let lib = match metallib_result {
            Some(Ok(lib)) => lib,
            Some(Err(_)) => self.compile_from_source(device, source)?,
            None => self.compile_from_source(device, source)?,
        };
        let kept = lib.clone();
        let ghost before = self.library_cache();
        self.libraries.set(i, Some(kept));
        proof {
            assert forall|t: Source| #[trigger] source_index(t) < SOURCE_COUNT by {
                crate::source::lemma_source_index_in_table(t, source);
            }
            assert(self.library_cache() =~= before.insert(source, self.library_cache()[source]));
        }
        Ok(lib)
    }

    /// Loads the library of `source` and takes the kernel `name` out of it.
    fn load_function(
        &mut self,
        device: &D,
        source: Source,
        name: &str,
        constants: Option<&D::ConstantValues>,
    ) -> (r: Result<D::Function, D::Error>)
        requires
            old(self).wf(),
        ensures
            final(self).wf(),
            function_load(
                old(self).library_cache(),
                final(self).library_cache(),
                old(self).metallib_dir(),
                device,
                source,
                name@,
                constants,
                r,
            ),
            final(self).pipeline_cache() == old(self).pipeline_cache(),
            final(self).metallib_dir() == old(self).metallib_dir(),
    {
        let ghost before = self.library_cache();
        let ghost dir = self.metallib_dir();
        let lib = self.load_library(device, source);
        let ghost after = self.library_cache();
        match lib {
            Err(e) => {
                assert(library_load(before, after, dir, device, source, Err(e)));
                Err(e)
            },
            Ok(l) => {
                let func = device.get_function(&l, name, constants);
                assert(call_ensures(D::get_function, (device, &l, name, constants), func));
                assert(library_load(before, after, dir, device, source, Ok::<D::Library, D::Error>(l)));
                func
            },
        }
    }

    /// The position of the first cached pipeline under the key (`name`,
    /// `constants`), if any.
    fn find_pipeline(&self, name: &KernelName, constants: &Option<D::ConstantValues>) -> (found: Option<usize>)
        requires
            <D::ConstantValues as PartialEqSpec>::obeys_eq_spec(),
        ensures
            match found {
                Some(i) => is_first_match(self.pipeline_cache(), (name@, *constants), i as int),
                None => forall|i: int|
                    0 <= i < self.pipeline_cache().len() ==> !same_key(
                        #[trigger] self.pipeline_cache()[i].0,
                        (name@, *constants),
                    ),
            },
    {
        let ghost key = (name@, *constants);
        let mut i: usize = 0;
        while i < self.pipelines.len()
            invariant
                i <= self.pipelines.len(),
                <D::ConstantValues as PartialEqSpec>::obeys_eq_spec(),
                key == (name@, *constants),
                self.pipeline_cache().len() == self.pipelines.len(),
                forall|j: int| 0 <= j < i ==> !same_key(#[trigger] self.pipeline_cache()[j].0, key),
            decreases self.pipelines.len() - i,
        {
            let entry = &self.pipelines[i];
            let ghost k = self.pipeline_cache()[i as int].0;
            assert(k == pipeline_key(self.pipelines@[i as int]));
            if entry.0 == *name && entry.1 == *constants {
                return Some(i);
            }
            i = i + 1;
        }
        None
    }

    /// Load the given pipeline: loads the library from source, then gets the
    /// function `name` from that source, specialised with `constants`, and
    /// builds a compute pipeline from it. A pipeline built before under the
    /// same name and constants is fetched from the cache. Constant values are
    /// told apart by `==`, which must mean that they are the same values.
    pub fn load_pipeline_with_constants(
        &mut self,
        device: &D,
        source: Source,
        name: KernelName,
        constants: Option<D::ConstantValues>,
    ) -> (r: Result<D::Pipeline, D::Error>)
        requires
            old(self).wf(),
            <D::ConstantValues as PartialEqSpec>::obeys_eq_spec(),
        ensures
            Self::pipeline_call(*old(self), *final(self), device, source, name@, constants, r),
    {
        let ghost libs0 = self.library_cache();
        let ghost pipes0 = self.pipeline_cache();
        let ghost dir = self.metallib_dir();
        let ghost key = (name@, constants);
        match self.find_pipeline(&name, &constants) {
            Some(i) => {
                proof {
                    let j = choose|j: int| is_first_match(pipes0, key, j);
                    lemma_first_match_unique(pipes0, key, i as int, j);
                }
                let pipeline = self.pipelines[i].2.clone();
                return Ok(pipeline);
            },
            None => {},
        }
        assert(cached_pipeline(pipes0, key) is None);
        let cr = constants.as_ref();
        assert(cr == constants_ref(&constants));
        let func = self.load_function(device, source, name.as_ref(), cr);
        let ghost libs1 = self.library_cache();
        assert(function_load(libs0, libs1, dir, device, source, name@, constants_ref(&constants), func));
        match func {
            Err(e) => Err(e),
            Ok(f) => {
                let created = device.new_compute_pipeline(&f);
                assert(call_ensures(D::new_compute_pipeline, (device, &f), created));
                match created {
                    Err(e) => Err(e),
                    Ok(pipeline) => {
                        let kept = pipeline.clone();
                        self.pipelines.push((name, constants, kept));
                        assert(self.pipeline_cache() =~= pipes0.push((key, kept)));
                        Ok(pipeline)
                    },
                }
            },
        }
    }

    /// Load the given pipeline: loads the library from source, then gets the
    /// function `name` from that source (without constants).
    pub fn load_pipeline(&mut self, device: &D, source: Source, name: KernelName) -> (r: Result<
        D::Pipeline,
        D::Error,
    >)
        requires
            old(self).wf(),
            <D::ConstantValues as PartialEqSpec>::obeys_eq_spec(),
        ensures
            Self::pipeline_call(*old(self), *final(self), device, source, name@, None, r),
    {
        self.load_pipeline_with_constants(device, source, name, None)
    }

    /// One call that loads a pipeline (`load_pipeline_with_constants`, or
    /// `load_pipeline` with no constants), taking the kernels from `before` to
    /// `after`: the caches change as `pipeline_load` says, the directory stays.
    pub open spec fn pipeline_call(
        before: Self,
        after: Self,
        device: &D,
        source: Source,
        name: Seq<char>,
        constants: Option<D::ConstantValues>,
        r: Result<D::Pipeline, D::Error>,
    ) -> bool {
        &&& after.wf()
        &&& pipeline_load(
            before.library_cache(),
            after.library_cache(),
            before.pipeline_cache(),
            after.pipeline_cache(),
            before.metallib_dir(),
            device,
            source,
            name,
            constants,
            r,
        )
        &&& after.metallib_dir() == before.metallib_dir()
    }

    /// The embedded Metal source file that the library of `source` is compiled from.
    pub fn get_library_source(&self, source: Source) -> (file: &'static str)
        ensures
            file == library_source_file(source),
    {
        match source {
            Source::Affine => "metal_src/affine.metal",
            Source::Binary => "metal_src/binary.metal",
            Source::Cast => "metal_src/cast.metal",
            Source::Conv => "metal_src/conv.metal",
            Source::Fill => "metal_src/fill.metal",
            Source::Gemm => "metal_src/mlx_gemm.metal",
            Source::Indexing => "metal_src/indexing.metal",
            Source::MlxSort => "metal_src/mlx_sort.metal",
            Source::Quantized => "metal_src/quantized.metal",
            Source::Random => "metal_src/random.metal",
            Source::Reduce => "metal_src/reduce.metal",
            Source::Sort => "metal_src/sort.metal",
            Source::Ternary => "metal_src/ternary.metal",
            Source::Unary => "metal_src/unary.metal",
            Source::Sdpa => "metal_src/scaled_dot_product_attention.metal",
        }
    }
}

impl<D: KernelDevice> Default for Kernels<D> {
    /// The same as `Kernels::new`.
    fn default() -> (k: Self)
        ensures
            k.wf(),
            k.library_cache() == Map::<Source, D::Library>::empty(),
            k.pipeline_cache() == Seq::<((Seq<char>, Option<D::ConstantValues>), D::Pipeline)>::empty(),
            k.metallib_dir() is None,
    {
        Self::new()
    }
}

/// Loading a source a second time is answered from the cache: once a load of
/// `source` has returned a library, the next load of `source` returns a clone
/// of the library that the first one kept (itself a clone of what the first
/// returned), asks nothing of the device, and changes nothing.
pub proof fn lemma_library_reload_is_cached<D: KernelDevice>(
    c0: Map<Source, D::Library>,
    c1: Map<Source, D::Library>,
    c2: Map<Source, D::Library>,
    dir1: Option<Seq<char>>,
    dir2: Option<Seq<char>>,
    device1: &D,
    device2: &D,
    source: Source,
    r1: Result<D::Library, D::Error>,
    r2: Result<D::Library, D::Error>,
)
    requires
        library_load(c0, c1, dir1, device1, source, r1),
        r1 is Ok,
        library_load(c1, c2, dir2, device2, source, r2),
    ensures
        c1.contains_key(source),
        !c0.contains_key(source) ==> cloned(r1->Ok_0, c1[source]),
        c0.contains_key(source) ==> c1 == c0 && cloned(c0[source], r1->Ok_0),
        r2 is Ok,
        cloned(c1[source], r2->Ok_0),
        c2 == c1,
{
}

/// A load that fails leaves the library cache as it was, and a load never
/// changes what is cached for any other source.
pub proof fn lemma_library_load_is_local<D: KernelDevice>(
    c0: Map<Source, D::Library>,
    c1: Map<Source, D::Library>,
    dir: Option<Seq<char>>,
    device: &D,
    source: Source,
    r: Result<D::Library, D::Error>,
    other: Source,
)
    requires
        library_load(c0, c1, dir, device, source, r),
        other != source,
    ensures
        r is Err ==> c1 == c0,
        c1.contains_key(other) == c0.contains_key(other),
        c0.contains_key(other) ==> c1[other] == c0[other],
        c0.contains_key(source) ==> c1[source] == c0[source],
{
}

/// Loading a pipeline a second time under the same key is answered from the
/// cache, whatever device and source the second call names, and whether each
/// name is borrowed or owned: once a load has returned a pipeline, a later
/// load under a name with the same text and equal constant values returns a
/// clone of the pipeline that the first kept (itself a clone of what the
/// first returned, when it was not already cached), and changes neither
/// cache. This rests on `==` of the constant values being lawful, as `Eq`
/// promises.
pub proof fn lemma_pipeline_reload_is_cached<D: KernelDevice>(
    k0: Kernels<D>,
    k1: Kernels<D>,
    k2: Kernels<D>,
    device1: &D,
    device2: &D,
    source1: Source,
    source2: Source,
    name1: KernelName,
    name2: KernelName,
    constants1: Option<D::ConstantValues>,
    constants2: Option<D::ConstantValues>,
    r1: Result<D::Pipeline, D::Error>,
    r2: Result<D::Pipeline, D::Error>,
)
    requires
        lawful_eq::<D::ConstantValues>(),
        Kernels::pipeline_call(k0, k1, device1, source1, name1@, constants1, r1),
        r1 is Ok,
        Kernels::pipeline_call(k1, k2, device2, source2, name2@, constants2, r2),
        PartialEqSpec::eq_spec(&name1, &name2),
        PartialEqSpec::eq_spec(&constants1, &constants2),
    ensures
        cached_pipeline(k1.pipeline_cache(), (name1@, constants1)) is Some,
        cached_pipeline(k0.pipeline_cache(), (name1@, constants1)) is None ==> cloned(
            r1->Ok_0,
            cached_pipeline(k1.pipeline_cache(), (name1@, constants1))->Some_0,
        ),
        r2 is Ok,
        cloned(cached_pipeline(k1.pipeline_cache(), (name1@, constants1))->Some_0, r2->Ok_0),
        k2.pipeline_cache() == k1.pipeline_cache(),
        k2.library_cache() == k1.library_cache(),
        k2.metallib_dir() == k1.metallib_dir(),
{
    let key1 = (name1@, constants1);
    let key2 = (name2@, constants2);
    let l0 = k0.library_cache();
    let l1 = k1.library_cache();
    let p0 = k0.pipeline_cache();
    let p1 = k1.pipeline_cache();
    let dir1 = k0.metallib_dir();
    assert(same_key(key1, key2));
    lemma_same_key_equivalence(key1, key2, key1);
    if cached_pipeline(p0, key1) is None {
        let f = choose|f: Result<D::Function, D::Error>|
            #[trigger] function_load(l0, l1, dir1, device1, source1, name1@, constants_ref(&constants1), f)
                && match f {
                Err(e) => r1 == Err::<D::Pipeline, D::Error>(e) && p1 == p0,
                Ok(func) => {
                    &&& call_ensures(D::new_compute_pipeline, (device1, &func), r1)
                    &&& match r1 {
                        Ok(p) => {
                            &&& p1.len() == p0.len() + 1
                            &&& cloned(p, p1.last().1)
                            &&& p1 == p0.push((key1, p1.last().1))
                        },
                        Err(_) => p1 == p0,
                    }
                },
            };
        assert(f is Ok);
        let n = p0.len() as int;
        assert(p1[n].0 == key1);
        assert forall|j: int| 0 <= j < n implies !same_key(#[trigger] p1[j].0, key1) by {
            assert(p1[j] == p0[j]);
            if same_key(p0[j].0, key1) {
                lemma_first_match_exists(p0, key1, j);
            }
        }
        assert(is_first_match(p1, key1, n));
        let m = choose|m: int| is_first_match(p1, key1, m);
        lemma_first_match_unique(p1, key1, n, m);
    }
    lemma_cached_pipeline_by_same_key(p1, key1, key2);
}

/// The pipeline cache is keyed by the text of the name: a borrowed and an
/// owned name with the same characters give the same key.
pub proof fn lemma_pipeline_key_by_text<C, P>(a: KernelName, b: KernelName, constants: Option<C>, p: P)
    requires
        PartialEqSpec::eq_spec(&a, &b),
    ensures
        pipeline_key((a, constants, p)) == pipeline_key((b, constants, p)),
{
}

} // verus!
