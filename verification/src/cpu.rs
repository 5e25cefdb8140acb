//! The processor: its identity, its caches and the speed of its cores.

use vstd::prelude::*;
use vstd::slice::slice_subrange;
use crate::decimal::{
    is_digit, lemma_number_is_trimmed, parse_u64, parse_u64_or_zero, unsigned_of, unsigned_or_zero,
};
use crate::text::{
    after_last, after_last_start, chars_of, lemma_last_index_of_bounds, lemma_rows_index,
    lemma_trim_end_of_clean, lemma_trim_start_of_clean, lines_of, split_lines, starts_with,
    string_of, trim, trim_of,
};
use crate::units::{scale, scaled, KIB, MIB};

verus! {

/// Cache sizes in bytes; zero where a size is not known.
#[derive(Clone, Copy, Debug, PartialEq, Eq)]
pub struct CpuCache {
    pub l2: u64,
    pub l3: u64,
}

impl View for CpuCache {
    type V = CpuCache;

    open spec fn view(&self) -> CpuCache {
        *self
    }
}

impl DeepView for CpuCache {
    type V = CpuCache;

    open spec fn deep_view(&self) -> CpuCache {
        *self
    }
}

impl Default for CpuCache {
    fn default() -> (out: Self)
        ensures
            out == (CpuCache { l2: 0, l3: 0 }),
    {
        CpuCache { l2: 0, l3: 0 }
    }
}

/// The number of cache descriptors that a processor core is asked for.
pub const CACHE_DESCRIPTORS: usize = 10;

/// What the kernel tells of one cache: the text of its `level` file and of
/// its `size` file.
#[derive(Clone, Debug, PartialEq, Eq)]
pub struct CacheDescriptor {
    pub level: String,
    pub size: String,
}

/// The view of [`CacheDescriptor`]: its texts as sequences of characters.
pub struct CacheDescriptorView {
    pub level: Seq<char>,
    pub size: Seq<char>,
}

impl View for CacheDescriptor {
    type V = CacheDescriptorView;

    open spec fn view(&self) -> CacheDescriptorView {
        CacheDescriptorView { level: self.level@, size: self.size@ }
    }
}

impl DeepView for CacheDescriptor {
    type V = CacheDescriptorView;

    open spec fn deep_view(&self) -> CacheDescriptorView {
        self@
    }
}

/// The size in bytes that a cache size text states: a decimal number, taken
/// times 1024 where `K` follows it and times 1024 * 1024 where `M` follows
/// it. White space around the text does not count. Zero where the number
/// cannot be read or the size does not fit in 64 bits.
pub open spec fn cache_size_of(s: Seq<char>) -> u64 {
    let t = trim_of(s);
    if t.len() > 0 && t.last() == 'K' {
        scaled(unsigned_or_zero(t.drop_last()), KIB)
    } else if t.len() > 0 && t.last() == 'M' {
        scaled(unsigned_or_zero(t.drop_last()), MIB)
    } else {
        unsigned_or_zero(t)
    }
}

/// The sizes of the second and third level caches that the descriptors
/// state. Of several descriptors of one level the last decides.
pub open spec fn cache_sizes_of(descriptors: Seq<CacheDescriptorView>) -> CpuCache
    decreases descriptors.len(),
{
    if descriptors.len() == 0 {
        CpuCache { l2: 0, l3: 0 }
    } else {
        let before = cache_sizes_of(descriptors.drop_last());
        let level = unsigned_of(trim_of(descriptors.last().level));
        let size = cache_size_of(descriptors.last().size);
        if level == Some(2u64) {
            CpuCache { l2: size, ..before }
        } else if level == Some(3u64) {
            CpuCache { l3: size, ..before }
        } else {
            before
        }
    }
}

/// Reads a cache size as the kernel writes it, such as `256K` or `8M`.
pub fn parse_cache_size(s: &str) -> (bytes: u64)
    ensures
        bytes == cache_size_of(s@),
{
    let chars = chars_of(s);
    cache_size(chars.as_slice())
}

/// Reads a cache size from its characters.
fn cache_size(s: &[char]) -> (bytes: u64)
    ensures
        bytes == cache_size_of(s@),
{
    let t = trim(s);
    let n = t.len();
    if n > 0 && t[n - 1] == 'K' {
        scale(parse_u64_or_zero(slice_subrange(t, 0, n - 1)), KIB)
    } else if n > 0 && t[n - 1] == 'M' {
        scale(parse_u64_or_zero(slice_subrange(t, 0, n - 1)), MIB)
    } else {
        parse_u64_or_zero(t)
    }
}

/// Reads the sizes of the second and third level caches from the cache
/// descriptors of a core. `descriptors` holds, in the order of their index,
/// the descriptors of which both files could be read.
pub fn read_cache_sizes(descriptors: &Vec<CacheDescriptor>) -> (sizes: (u64, u64))
    ensures
        sizes.0 == cache_sizes_of(descriptors.deep_view()).l2,
        sizes.1 == cache_sizes_of(descriptors.deep_view()).l3,
{
    let mut l2: u64 = 0;
    let mut l3: u64 = 0;
    let ghost all = descriptors.deep_view();
    assert(all.take(0) == Seq::<CacheDescriptorView>::empty());
    let mut i: usize = 0;
    while i < descriptors.len()
        invariant
            i <= descriptors.len(),
            all == descriptors.deep_view(),
            cache_sizes_of(all.take(i as int)) == (CpuCache { l2, l3 }),
        decreases descriptors.len() - i,
    {
        assert(all.take(i + 1).drop_last() == all.take(i as int));
        assert(all.take(i + 1).last() == descriptors[i as int]@);
        let level_chars = chars_of(descriptors[i].level.as_str());
        let size_chars = chars_of(descriptors[i].size.as_str());
        let level = parse_u64(trim(level_chars.as_slice()));
        let size = cache_size(size_chars.as_slice());
        match level {
            Some(2) => { l2 = size; },
            Some(3) => { l3 = size; },
            _ => {},
        }
        i += 1;
    }
    assert(all.take(i as int) == all);
    (l2, l3)
}

/// A number followed by `K` is that many times 1024 bytes, and one followed
/// by `M` that many times 1024 * 1024 bytes, whenever the bytes can be
/// counted in 64 bits.
pub proof fn lemma_cache_size_units(digits: Seq<char>, n: u64)
    requires
        unsigned_of(digits) == Some(n),
    ensures
        n * 1024 <= u64::MAX ==> cache_size_of(digits.push('K')) == n * 1024,
        n * 1024 * 1024 <= u64::MAX ==> cache_size_of(digits.push('M')) == n * 1024 * 1024,
        cache_size_of(digits) == n,
{
    lemma_number_is_trimmed(digits);
    let k = digits.push('K');
    let m = digits.push('M');
    lemma_trim_start_of_clean(k);
    lemma_trim_end_of_clean(k);
    lemma_trim_start_of_clean(m);
    lemma_trim_end_of_clean(m);
    assert(k.drop_last() == digits);
    assert(m.drop_last() == digits);
    assert(is_digit(digits.last()));
}

/// Whether a line of the processor table gives the processor family.
pub open spec fn is_family_line(line: Seq<char>) -> bool {
    "cpu family"@.is_prefix_of(line)
}

/// Whether a line of the processor table gives the model number: its key is
/// `model`, not `model name`.
pub open spec fn is_model_line(line: Seq<char>) -> bool {
    &&& "model\t"@.is_prefix_of(line) || "model "@.is_prefix_of(line)
    &&& !"model name"@.is_prefix_of(line)
}

/// Whether a line of the processor table gives the stepping.
pub open spec fn is_stepping_line(line: Seq<char>) -> bool {
    "stepping"@.is_prefix_of(line)
}

/// The value of a line of the processor table: what follows its last colon,
/// trimmed.
pub open spec fn key_value_of(line: Seq<char>) -> Seq<char> {
    trim_of(after_last(line, ':'))
}

/// The value of the first of `lines` that has the key and a value that is
/// not empty; empty where there is no such line.
pub open spec fn first_value_of(lines: Seq<Seq<char>>, key: spec_fn(Seq<char>) -> bool) -> Seq<
    char,
>
    decreases lines.len(),
{
    if lines.len() == 0 {
        Seq::empty()
    } else {
        let before = first_value_of(lines.drop_last(), key);
        if before.len() == 0 && key(lines.last()) {
            key_value_of(lines.last())
        } else {
            before
        }
    }
}

/// Family, model and stepping as the processor table gives them; each is
/// empty where the table does not give it, or where there is no table.
pub open spec fn cpu_ids_of(table: Option<Seq<char>>) -> (Seq<char>, Seq<char>, Seq<char>) {
    match table {
        Some(text) => (
            first_value_of(lines_of(text), |line: Seq<char>| is_family_line(line)),
            first_value_of(lines_of(text), |line: Seq<char>| is_model_line(line)),
            first_value_of(lines_of(text), |line: Seq<char>| is_stepping_line(line)),
        ),
        None => (Seq::empty(), Seq::empty(), Seq::empty()),
    }
}

/// Once a value is found, the lines that follow do not change it.
pub proof fn lemma_first_value_stays(
    lines: Seq<Seq<char>>,
    key: spec_fn(Seq<char>) -> bool,
    i: int,
)
    requires
        0 <= i <= lines.len(),
        first_value_of(lines.take(i), key).len() > 0,
    ensures
        first_value_of(lines, key) == first_value_of(lines.take(i), key),
    decreases lines.len() - i,
{
    if i == lines.len() {
        assert(lines.take(i) == lines);
    } else {
        assert(lines.take(i + 1).drop_last() == lines.take(i));
        lemma_first_value_stays(lines, key, i + 1);
    }
}

/// The value of a line of the processor table.
fn key_value(line: &[char]) -> (out: String)
    ensures
        out@ == key_value_of(line@),
{
    let start = after_last_start(line, ':');
    proof {
        lemma_last_index_of_bounds(line@, ':');
    }
    string_of(trim(slice_subrange(line, start, line.len())))
}

/// Reads family, model and stepping from the kernel's processor table.
/// `table` is the text of the table, or `None` where it cannot be read.
pub fn read_cpu_ids(table: Option<&str>) -> (ids: (String, String, String))
    ensures
        (ids.0@, ids.1@, ids.2@) == cpu_ids_of(table.deep_view()),
{
    let mut family = String::new();
    let mut model = String::new();
    let mut stepping = String::new();
    let text = match table {
        Some(text) => text,
        None => { return (family, model, stepping); },
    };
    let chars = chars_of(text);
    let lines = split_lines(chars.as_slice());
    let family_key = chars_of("cpu family");
    let model_tab = chars_of("model\t");
    let model_space = chars_of("model ");
    let model_name = chars_of("model name");
    let stepping_key = chars_of("stepping");
    let ghost all = lines.deep_view();
    let ghost fam = |line: Seq<char>| is_family_line(line);
    let ghost modl = |line: Seq<char>| is_model_line(line);
    let ghost step = |line: Seq<char>| is_stepping_line(line);
    assert(all.take(0) == Seq::<Seq<char>>::empty());
    let mut i: usize = 0;
    let mut filled = false;
    while i < lines.len() && !filled
        invariant
            i <= lines.len(),
            all == lines.deep_view(),
            fam == |line: Seq<char>| is_family_line(line),
            modl == |line: Seq<char>| is_model_line(line),
            step == |line: Seq<char>| is_stepping_line(line),
            family_key@ == "cpu family"@,
            model_tab@ == "model\t"@,
            model_space@ == "model "@,
            model_name@ == "model name"@,
            stepping_key@ == "stepping"@,
            family@ == first_value_of(all.take(i as int), fam),
            model@ == first_value_of(all.take(i as int), modl),
            stepping@ == first_value_of(all.take(i as int), step),
            filled == (family@.len() > 0 && model@.len() > 0 && stepping@.len() > 0),
        decreases lines.len() - i,
    {
        proof {
            lemma_rows_index(lines, i as int);
            assert(all.take(i + 1).drop_last() == all.take(i as int));
            assert(all.take(i + 1).last() == lines[i as int]@);
        }
        let line = lines[i].as_slice();
        if family.as_str().is_empty() && starts_with(line, family_key.as_slice()) {
            family = key_value(line);
        }
        if model.as_str().is_empty() && (starts_with(line, model_tab.as_slice()) || starts_with(
            line,
            model_space.as_slice(),
        )) && !starts_with(line, model_name.as_slice()) {
            model = key_value(line);
        }
        if stepping.as_str().is_empty() && starts_with(line, stepping_key.as_slice()) {
            stepping = key_value(line);
        }
        filled = !family.as_str().is_empty() && !model.as_str().is_empty()
            && !stepping.as_str().is_empty();
        i += 1;
    }
    proof {
        if filled {
            lemma_first_value_stays(all, fam, i as int);
            lemma_first_value_stays(all, modl, i as int);
            lemma_first_value_stays(all, step, i as int);
        } else {
            assert(all.take(i as int) == all);
        }
    }
    (family, model, stepping)
}

/// The frequencies of the logical cores, in MHz, put together. The mean is
/// kept exactly, as the sum `total` over the number of `cores`.
#[derive(Clone, Copy, Debug, PartialEq, Eq)]
pub struct CpuCurrentSpeed {
    pub total: u128,
    pub cores: usize,
    pub min: u64,
    pub max: u64,
}

impl View for CpuCurrentSpeed {
    type V = CpuCurrentSpeed;

    open spec fn view(&self) -> CpuCurrentSpeed {
        *self
    }
}

impl DeepView for CpuCurrentSpeed {
    type V = CpuCurrentSpeed;

    open spec fn deep_view(&self) -> CpuCurrentSpeed {
        *self
    }
}

impl Default for CpuCurrentSpeed {
    fn default() -> (out: Self)
        ensures
            out == (CpuCurrentSpeed { total: 0, cores: 0, min: 0, max: 0 }),
    {
        CpuCurrentSpeed { total: 0, cores: 0, min: 0, max: 0 }
    }
}

/// The sum of `values`.
pub open spec fn sum_of(values: Seq<u64>) -> nat
    decreases values.len(),
{
    if values.len() == 0 {
        0
    } else {
        sum_of(values.drop_last()) + values.last() as nat
    }
}

/// Whether `speed` puts the frequencies of the cores together: their number
/// and their sum, and the least and the greatest of them. With no core at
/// all, everything is zero.
pub open spec fn is_speed_of(speed: CpuCurrentSpeed, frequencies: Seq<u64>) -> bool {
    &&& speed.cores == frequencies.len()
    &&& speed.total == sum_of(frequencies)
    &&& frequencies.len() == 0 ==> speed.min == 0 && speed.max == 0
    &&& frequencies.len() > 0 ==> frequencies.contains(speed.min) && frequencies.contains(
        speed.max,
    )
    &&& forall|i: int|
        0 <= i < frequencies.len() ==> speed.min <= #[trigger] frequencies[i] <= speed.max
}

/// A sum of 64-bit numbers is at most as many times the greatest of them.
pub proof fn lemma_sum_of_bound(values: Seq<u64>)
    ensures
        sum_of(values) <= values.len() * u64::MAX,
    decreases values.len(),
{
    if values.len() > 0 {
        lemma_sum_of_bound(values.drop_last());
        assert((values.len() - 1) * u64::MAX + u64::MAX == values.len() * u64::MAX)
            by (nonlinear_arith);
    }
}

/// The frequencies of the cores have one way to be put together.
pub proof fn lemma_speed_is_unique(a: CpuCurrentSpeed, b: CpuCurrentSpeed, frequencies: Seq<u64>)
    requires
        is_speed_of(a, frequencies),
        is_speed_of(b, frequencies),
    ensures
        a == b,
{
    if frequencies.len() > 0 {
        let i = choose|i: int| 0 <= i < frequencies.len() && frequencies[i] == a.min;
        let j = choose|j: int| 0 <= j < frequencies.len() && frequencies[j] == b.min;
        let k = choose|k: int| 0 <= k < frequencies.len() && frequencies[k] == a.max;
        let l = choose|l: int| 0 <= l < frequencies.len() && frequencies[l] == b.max;
    }
}

/// Puts the frequencies of the logical cores together.
pub fn collect_cpu_speed(frequencies: &Vec<u64>) -> (speed: CpuCurrentSpeed)
    ensures
        is_speed_of(speed, frequencies@),
{
    let mut total: u128 = 0;
    let mut min: u64 = 0;
    let mut max: u64 = 0;
    let ghost all = frequencies@;
    assert(all.take(0) == Seq::<u64>::empty());
    let mut i: usize = 0;
    while i < frequencies.len()
        invariant
            i <= frequencies.len(),
            all == frequencies@,
            is_speed_of(CpuCurrentSpeed { total, cores: i, min, max }, all.take(i as int)),
        decreases frequencies.len() - i,
    {
        let f = frequencies[i];
        let ghost before = all.take(i as int);
        let ghost after = all.take(i + 1);
        proof {
            assert(after.drop_last() == before);
            lemma_sum_of_bound(before);
            assert(i * u64::MAX <= usize::MAX * u64::MAX) by (nonlinear_arith)
                requires
                    i <= usize::MAX,
            ;
            assert(usize::MAX * u64::MAX + u64::MAX <= u128::MAX) by (nonlinear_arith)
                requires
                    usize::MAX <= u64::MAX,
                    u64::MAX == 0xffff_ffff_ffff_ffff,
                    u128::MAX == 0xffff_ffff_ffff_ffff_ffff_ffff_ffff_ffff,
            ;
        }
        let ghost old_min = min;
        let ghost old_max = max;
        total = total + f as u128;
        if i == 0 || f < min {
            min = f;
        }
        if i == 0 || f > max {
            max = f;
        }
        proof {
            assert(after[i as int] == f);
            assert(forall|j: int| 0 <= j < i ==> before[j] == after[j]);
            if i > 0 {
                let a = choose|a: int| 0 <= a < before.len() && before[a] == old_min;
                let b = choose|b: int| 0 <= b < before.len() && before[b] == old_max;
                assert(after[a] == old_min && after[b] == old_max);
            }
        }
        i += 1;
    }
    assert(all.take(i as int) == all);
    CpuCurrentSpeed { total, cores: i, min, max }
}

/// The load of the logical cores put together. The mean is kept exactly, as
/// the sum `total` over the number of `cores`. A load is counted in
/// millionths of a percent.
#[derive(Clone, Copy, Debug, PartialEq, Eq)]
pub struct CurrentLoad {
    pub total: u128,
    pub cores: usize,
}

impl View for CurrentLoad {
    type V = CurrentLoad;

    open spec fn view(&self) -> CurrentLoad {
        *self
    }
}

impl DeepView for CurrentLoad {
    type V = CurrentLoad;

    open spec fn deep_view(&self) -> CurrentLoad {
        *self
    }
}

impl Default for CurrentLoad {
    fn default() -> (out: Self)
        ensures
            out == (CurrentLoad { total: 0, cores: 0 }),
    {
        CurrentLoad { total: 0, cores: 0 }
    }
}

/// The load of the cores put together: their number and the sum of their
/// loads. The mean is plain: every core counts the same.
pub open spec fn load_of(usages: Seq<u64>) -> CurrentLoad {
    CurrentLoad { total: sum_of(usages) as u128, cores: usages.len() as usize }
}

/// Puts the load of the logical cores together.
pub fn collect_cpu_load(usages: &Vec<u64>) -> (load: CurrentLoad)
    ensures
        load == load_of(usages@),
        load.total == sum_of(usages@),
        load.cores == usages.len(),
{
    let speed = collect_cpu_speed(usages);
    CurrentLoad { total: speed.total, cores: speed.cores }
}

/// What the metrics source tells of one logical core.
#[derive(Clone, Debug, PartialEq, Eq)]
pub struct CpuCore {
    pub brand: String,
    pub vendor: String,
    /// Frequency in MHz.
    pub frequency: u64,
}

/// The view of [`CpuCore`]: its texts as sequences of characters.
pub struct CpuCoreView {
    pub brand: Seq<char>,
    pub vendor: Seq<char>,
    pub frequency: u64,
}

impl View for CpuCore {
    type V = CpuCoreView;

    open spec fn view(&self) -> CpuCoreView {
        CpuCoreView { brand: self.brand@, vendor: self.vendor@, frequency: self.frequency }
    }
}

impl DeepView for CpuCore {
    type V = CpuCoreView;

    open spec fn deep_view(&self) -> CpuCoreView {
        self@
    }
}

/// The processor: what it is, how many cores it has and how fast they run.
/// Texts are empty and numbers zero where nothing is known.
#[derive(Clone, Debug, PartialEq, Eq)]
pub struct CpuInfo {
    pub brand: String,
    pub vendor: String,
    pub family: String,
    pub model: String,
    pub stepping: String,
    pub physical_cores: usize,
    pub cores: usize,
    pub speed: CpuCurrentSpeed,
    pub cache: CpuCache,
}

/// The view of [`CpuInfo`]: its texts as sequences of characters.
pub struct CpuInfoView {
    pub brand: Seq<char>,
    pub vendor: Seq<char>,
    pub family: Seq<char>,
    pub model: Seq<char>,
    pub stepping: Seq<char>,
    pub physical_cores: usize,
    pub cores: usize,
    pub speed: CpuCurrentSpeed,
    pub cache: CpuCache,
}

impl View for CpuInfo {
    type V = CpuInfoView;

    open spec fn view(&self) -> CpuInfoView {
        CpuInfoView {
            brand: self.brand@,
            vendor: self.vendor@,
            family: self.family@,
            model: self.model@,
            stepping: self.stepping@,
            physical_cores: self.physical_cores,
            cores: self.cores,
            speed: self.speed,
            cache: self.cache,
        }
    }
}

impl DeepView for CpuInfo {
    type V = CpuInfoView;

    open spec fn deep_view(&self) -> CpuInfoView {
        self@
    }
}

impl CpuInfo {
    /// The number of physical cores never exceeds that of the logical cores,
    /// and the speed is taken over the logical cores.
    pub open spec fn wf(&self) -> bool {
        self.physical_cores <= self.cores && self.speed.cores == self.cores
    }
}

/// The processor of which nothing is known.
pub open spec fn unknown_cpu() -> CpuInfoView {
    CpuInfoView {
        brand: Seq::empty(),
        vendor: Seq::empty(),
        family: Seq::empty(),
        model: Seq::empty(),
        stepping: Seq::empty(),
        physical_cores: 0,
        cores: 0,
        speed: CpuCurrentSpeed { total: 0, cores: 0, min: 0, max: 0 },
        cache: CpuCache { l2: 0, l3: 0 },
    }
}

impl Default for CpuInfo {
    fn default() -> (out: Self)
        ensures
            out@ == unknown_cpu(),
            out.wf(),
    {
        CpuInfo {
            brand: String::new(),
            vendor: String::new(),
            family: String::new(),
            model: String::new(),
            stepping: String::new(),
            physical_cores: 0,
            cores: 0,
            speed: CpuCurrentSpeed { total: 0, cores: 0, min: 0, max: 0 },
            cache: CpuCache { l2: 0, l3: 0 },
        }
    }
}

/// The frequencies of `cores`, in their order.
pub open spec fn frequencies_of(cores: Seq<CpuCoreView>) -> Seq<u64> {
    Seq::new(cores.len(), |i: int| cores[i].frequency)
}

/// The number of physical cores to report: the number the source tells
/// (none where it tells nothing), but never more than the logical cores.
pub open spec fn physical_cores_of(told: Option<usize>, logical: nat) -> nat {
    match told {
        Some(n) => if n <= logical {
            n as nat
        } else {
            logical
        },
        None => 0,
    }
}

/// Whether `info` describes the processor as the sources tell it: brand and
/// vendor are those of the first logical core, the cores are counted, their
/// frequencies put together, and caches and identifiers read from the
/// kernel's files.
pub open spec fn is_cpu_info_of(
    info: CpuInfoView,
    cores: Seq<CpuCoreView>,
    physical: Option<usize>,
    descriptors: Seq<CacheDescriptorView>,
    table: Option<Seq<char>>,
) -> bool {
    &&& info.brand == if cores.len() > 0 {
        cores[0].brand
    } else {
        Seq::empty()
    }
    &&& info.vendor == if cores.len() > 0 {
        cores[0].vendor
    } else {
        Seq::empty()
    }
    &&& (info.family, info.model, info.stepping) == cpu_ids_of(table)
    &&& info.cores == cores.len()
    &&& info.physical_cores == physical_cores_of(physical, cores.len())
    &&& is_speed_of(info.speed, frequencies_of(cores))
    &&& info.cache == cache_sizes_of(descriptors)
}

/// Describes the processor from the logical cores that the metrics source
/// lists, the number of physical cores that it tells, the cache descriptors
/// of the first core and the kernel's processor table.
pub fn collect_cpu_info(
    cores: &Vec<CpuCore>,
    physical: Option<usize>,
    descriptors: &Vec<CacheDescriptor>,
    table: Option<&str>,
) -> (info: CpuInfo)
    ensures
        is_cpu_info_of(
            info@,
            cores.deep_view(),
            physical,
            descriptors.deep_view(),
            table.deep_view(),
        ),
        info.wf(),
{
    let (brand, vendor) = if cores.len() > 0 {
        (cores[0].brand.clone(), cores[0].vendor.clone())
    } else {
        (String::new(), String::new())
    };
    let mut frequencies: Vec<u64> = Vec::new();
    let mut i: usize = 0;
    while i < cores.len()
        invariant
            i <= cores.len(),
            frequencies@ == frequencies_of(cores.deep_view()).take(i as int),
        decreases cores.len() - i,
    {
        frequencies.push(cores[i].frequency);
        i += 1;
    }
    assert(frequencies@ == frequencies_of(cores.deep_view()));
    let speed = collect_cpu_speed(&frequencies);
    let (l2, l3) = read_cache_sizes(descriptors);
    let (family, model, stepping) = read_cpu_ids(table);
    let physical_cores = match physical {
        Some(n) => if n <= cores.len() {
            n
        } else {
            cores.len()
        },
        None => 0,
    };
    CpuInfo {
        brand,
        vendor,
        family,
        model,
        stepping,
        physical_cores,
        cores: cores.len(),
        speed,
        cache: CpuCache { l2, l3 },
    }
}

/// Reading the same processor table twice gives the same identifiers.
pub proof fn lemma_cpu_ids_repeatable(
    table: Option<&str>,
    first: (String, String, String),
    second: (String, String, String),
)
    requires
        (first.0@, first.1@, first.2@) == cpu_ids_of(table.deep_view()),
        (second.0@, second.1@, second.2@) == cpu_ids_of(table.deep_view()),
    ensures
        first.0@ == second.0@,
        first.1@ == second.1@,
        first.2@ == second.2@,
{
}

} // verus!
