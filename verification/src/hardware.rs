//! The memory modules of the machine: reading the list of them and putting it into words.

use crate::double;
use crate::order;
use crate::text;
use crate::ui_texts::UiTexts;
use vstd::prelude::*;

verus! {

/// What is known about the memory modules.
#[derive(Debug)]
pub struct MemoryHardwareInfo {
    pub total_capacity_bytes: u64,
    pub module_count: usize,
    pub slot_count: Option<usize>,
    pub memory_type: Option<String>,
    pub speed_mt_s: Option<u32>,
    pub modules: Vec<MemoryModuleInfo>,
}

/// What is known about one memory module.
#[derive(Debug)]
pub struct MemoryModuleInfo {
    pub capacity_bytes: u64,
    pub speed_mt_s: Option<u32>,
    pub manufacturer: Option<String>,
    pub part_number: Option<String>,
    pub device_locator: Option<String>,
    pub memory_type: Option<String>,
}

// ---------------------------------------------------------------------------
// Fields
// ---------------------------------------------------------------------------

/// The positive number that a field holds, if it holds one of at most `max`.
pub open spec fn positive(field: Seq<char>, max: nat) -> Option<nat> {
    match text::parsed_number(text::trimmed(field), max) {
        Some(n) => if n > 0 {
            Some(n)
        } else {
            None
        },
        None => None,
    }
}

/// Reads a positive number of 64 bits.
pub fn parse_u64_field(value: &str) -> (r: Option<u64>)
    ensures
        match r {
            Some(n) => positive(value@, u64::MAX as nat) == Some(n as nat),
            None => positive(value@, u64::MAX as nat) is None,
        },
{
    let trimmed: String = text::trim_text(value);
    match text::parse_number(trimmed.as_str(), u64::MAX) {
        Some(n) => if n > 0 {
            Some(n)
        } else {
            None
        },
        None => None,
    }
}

/// The positive 32-bit number that a field holds, if it holds one.
pub open spec fn positive_u32(field: Seq<char>) -> Option<u32> {
    match positive(field, u32::MAX as nat) {
        Some(n) => Some(n as u32),
        None => None,
    }
}

/// Reads a positive number of 32 bits.
pub fn parse_u32_field(value: &str) -> (r: Option<u32>)
    ensures
        r == positive_u32(value@),
        r matches Some(n) ==> n > 0,
{
    let trimmed: String = text::trim_text(value);
    match text::parse_number(trimmed.as_str(), u32::MAX as u64) {
        Some(n) => if n > 0 {
            Some(n as u32)
        } else {
            None
        },
        None => None,
    }
}

/// What a field holds besides white space, if anything.
pub open spec fn non_blank(field: Seq<char>) -> Option<Seq<char>> {
    if text::trimmed(field).len() == 0 {
        None
    } else {
        Some(text::trimmed(field))
    }
}

/// Reads a field that may be blank.
pub fn non_empty_field(value: &str) -> (r: Option<String>)
    ensures
        text::optional(r) == non_blank(value@),
{
    let trimmed: String = text::trim_text(value);
    if trimmed.as_str().is_empty() {
        None
    } else {
        Some(trimmed)
    }
}

/// The name of a kind of memory, by its code.
pub open spec fn kind_name(code: u32) -> Option<Seq<char>> {
    if code == 20 {
        Some("DDR"@)
    } else if code == 21 {
        Some("DDR2"@)
    } else if code == 24 {
        Some("DDR3"@)
    } else if code == 26 {
        Some("DDR4"@)
    } else if code == 27 {
        Some("LPDDR"@)
    } else if code == 28 {
        Some("LPDDR2"@)
    } else if code == 29 {
        Some("LPDDR3"@)
    } else if code == 30 {
        Some("LPDDR4"@)
    } else if code == 34 {
        Some("DDR5"@)
    } else if code == 35 {
        Some("LPDDR5"@)
    } else {
        None
    }
}

/// The name of a kind of memory, by the code of its firmware or else by its older code.
pub open spec fn known_type(smbios_type: Option<u32>, legacy_type: Option<u32>) -> Option<Seq<char>> {
    let by_firmware = match smbios_type {
        Some(code) => kind_name(code),
        None => None,
    };
    if by_firmware is Some {
        by_firmware
    } else {
        match legacy_type {
            Some(code) => kind_name(code),
            None => None,
        }
    }
}

/// Gives the name of a kind of memory, by its code.
fn type_label(code: u32) -> (r: Option<&'static str>)
    ensures
        crate::config::option_view(r) == kind_name(code),
{
    if code == 20 {
        Some("DDR")
    } else if code == 21 {
        Some("DDR2")
    } else if code == 24 {
        Some("DDR3")
    } else if code == 26 {
        Some("DDR4")
    } else if code == 27 {
        Some("LPDDR")
    } else if code == 28 {
        Some("LPDDR2")
    } else if code == 29 {
        Some("LPDDR3")
    } else if code == 30 {
        Some("LPDDR4")
    } else if code == 34 {
        Some("DDR5")
    } else if code == 35 {
        Some("LPDDR5")
    } else {
        None
    }
}

/// Gives the name of a kind of memory, by either of its codes.
pub fn memory_type_label(smbios_type: Option<u32>, legacy_type: Option<u32>) -> (r: Option<
    &'static str,
>)
    ensures
        crate::config::option_view(r) == known_type(smbios_type, legacy_type),
{
    if let Some(code) = smbios_type {
        let label: Option<&'static str> = type_label(code);
        if label.is_some() {
            return label;
        }
    }
    match legacy_type {
        Some(code) => type_label(code),
        None => None,
    }
}

// ---------------------------------------------------------------------------
// The list of modules
// ---------------------------------------------------------------------------

/// The fields of a line that describes a module.
pub open spec fn module_fields(line: Seq<char>) -> Seq<Seq<char>> {
    text::pieces(text::trimmed(line).skip(2), '|')
}

/// Whether a line describes a module: it is marked as one, has all fields, and a capacity.
pub open spec fn is_module_line(line: Seq<char>) -> bool {
    &&& text::occurs_at(text::trimmed(line), "M|"@, 0)
    &&& module_fields(line).len() >= 8
    &&& positive(module_fields(line)[0], u64::MAX as nat) is Some
}

/// Whether `module` is what a line describes.
pub open spec fn is_described(module: MemoryModuleInfo, line: Seq<char>) -> bool {
    let fields = module_fields(line);
    &&& Some(module.capacity_bytes as nat) == positive(fields[0], u64::MAX as nat)
    &&& module.speed_mt_s == if positive_u32(fields[4]) is Some {
        positive_u32(fields[4])
    } else {
        positive_u32(fields[3])
    }
    &&& text::optional(module.manufacturer) == non_blank(fields[5])
    &&& text::optional(module.part_number) == non_blank(fields[6])
    &&& text::optional(module.device_locator) == non_blank(fields[7])
    &&& text::optional(module.memory_type) == known_type(
        positive_u32(fields[1]),
        positive_u32(fields[2]),
    )
}

/// The lines that describe modules.
pub open spec fn module_lines(lines: Seq<Seq<char>>) -> Seq<Seq<char>>
    decreases lines.len(),
{
    if lines.len() == 0 {
        Seq::empty()
    } else if is_module_line(lines.last()) {
        module_lines(lines.drop_last()).push(lines.last())
    } else {
        module_lines(lines.drop_last())
    }
}

/// The number of slots that a line tells, if it tells one.
pub open spec fn slots_in(line: Seq<char>) -> Option<u32> {
    if text::occurs_at(text::trimmed(line), "A|"@, 0) {
        positive_u32(text::trimmed(line).skip(2))
    } else {
        None
    }
}

/// The largest number of slots that any line tells.
pub open spec fn most_slots(lines: Seq<Seq<char>>) -> Option<u32>
    decreases lines.len(),
{
    if lines.len() == 0 {
        None
    } else {
        match (most_slots(lines.drop_last()), slots_in(lines.last())) {
            (Some(most), Some(told)) => Some(
                if told > most {
                    told
                } else {
                    most
                },
            ),
            (Some(most), None) => Some(most),
            (None, told) => told,
        }
    }
}

/// The capacities of modules added up.
pub open spec fn total_capacity(modules: Seq<MemoryModuleInfo>) -> nat
    decreases modules.len(),
{
    if modules.len() == 0 {
        0
    } else {
        total_capacity(modules.drop_last()) + modules.last().capacity_bytes as nat
    }
}

/// The kinds of the modules whose kind is known.
pub open spec fn known_types(modules: Seq<MemoryModuleInfo>) -> Seq<Seq<char>>
    decreases modules.len(),
{
    if modules.len() == 0 {
        Seq::empty()
    } else {
        match modules.last().memory_type {
            Some(kind) => if kind@.len() > 0 {
                known_types(modules.drop_last()).push(kind@)
            } else {
                known_types(modules.drop_last())
            },
            None => known_types(modules.drop_last()),
        }
    }
}

/// The kinds of modules in one text, if any is known.
pub open spec fn common_type(modules: Seq<MemoryModuleInfo>) -> Option<Seq<char>> {
    let kinds = order::sorted_distinct(known_types(modules));
    if kinds.len() == 0 {
        None
    } else {
        Some(text::joined(kinds, "/"@))
    }
}

/// Puts the kinds of modules into one text.
pub fn common_memory_type(modules: &Vec<MemoryModuleInfo>) -> (r: Option<String>)
    ensures
        text::optional(r) == common_type(modules@),
{
    let mut types: Vec<String> = Vec::new();
    let mut i: usize = 0;
    assert(text::views(types@) =~= known_types(modules@.take(0)));
    while i < modules.len()
        invariant
            i <= modules@.len(),
            text::views(types@) == known_types(modules@.take(i as int)),
        decreases modules@.len() - i,
    {
        assert(modules@.take(i + 1).drop_last() =~= modules@.take(i as int));
        if let Some(kind) = &modules[i].memory_type {
            if !kind.as_str().is_empty() {
                types.push(kind.clone());
            }
        }
        i = i + 1;
        assert(text::views(types@) =~= known_types(modules@.take(i as int)));
    }
    assert(modules@.take(i as int) =~= modules@);
    let kinds: Vec<String> = order::distinct_texts(&types);
    if kinds.len() == 0 {
        None
    } else {
        Some(text::join_texts(&kinds, "/"))
    }
}

/// The speeds of the modules whose speed is known.
pub open spec fn known_speeds(modules: Seq<MemoryModuleInfo>) -> Seq<u32>
    decreases modules.len(),
{
    if modules.len() == 0 {
        Seq::empty()
    } else {
        match modules.last().speed_mt_s {
            Some(speed) => if speed > 0 {
                known_speeds(modules.drop_last()).push(speed)
            } else {
                known_speeds(modules.drop_last())
            },
            None => known_speeds(modules.drop_last()),
        }
    }
}

/// Lists the distinct speeds of modules in ascending order.
fn distinct_speeds(modules: &Vec<MemoryModuleInfo>) -> (r: Vec<u32>)
    ensures
        r@ == order::ascending(known_speeds(modules@)),
{
    let mut speeds: Vec<u32> = Vec::new();
    let mut i: usize = 0;
    assert(speeds@ =~= known_speeds(modules@.take(0)));
    while i < modules.len()
        invariant
            i <= modules@.len(),
            speeds@ == known_speeds(modules@.take(i as int)),
        decreases modules@.len() - i,
    {
        assert(modules@.take(i + 1).drop_last() =~= modules@.take(i as int));
        if let Some(speed) = modules[i].speed_mt_s {
            if speed > 0 {
                speeds.push(speed);
            }
        }
        i = i + 1;
    }
    assert(modules@.take(i as int) =~= modules@);
    order::distinct_ascending(&speeds)
}

/// The speed of all modules whose speed is known, if they have the same.
pub open spec fn shared_speed(modules: Seq<MemoryModuleInfo>) -> Option<u32> {
    let speeds = order::ascending(known_speeds(modules));
    if speeds.len() == 1 {
        Some(speeds[0])
    } else {
        None
    }
}

/// Finds the speed that all modules share.
pub fn common_speed(modules: &Vec<MemoryModuleInfo>) -> (r: Option<u32>)
    ensures
        r == shared_speed(modules@),
{
    let speeds: Vec<u32> = distinct_speeds(modules);
    if speeds.len() == 1 {
        Some(speeds[0])
    } else {
        None
    }
}

/// Whether `info` is what the lines of a listing tell.
pub open spec fn is_listed_hardware(info: MemoryHardwareInfo, lines: Seq<Seq<char>>) -> bool {
    &&& info.modules@.len() == module_lines(lines).len()
    &&& forall|i: int|
        0 <= i < info.modules@.len() ==> is_described(
            #[trigger] info.modules@[i],
            module_lines(lines)[i],
        )
    &&& info.total_capacity_bytes == total_capacity(info.modules@) % 0x1_0000_0000_0000_0000
    &&& info.module_count == info.modules@.len()
    &&& info.slot_count == match most_slots(lines) {
        Some(n) => Some(n as usize),
        None => None,
    }
    &&& text::optional(info.memory_type) == common_type(info.modules@)
    &&& info.speed_mt_s == shared_speed(info.modules@)
}

/// Reads a line that describes a module.
fn parse_module(line: &str) -> (r: Option<MemoryModuleInfo>)
    requires
        text::occurs_at(text::trimmed(line@), "M|"@, 0),
    ensures
        match r {
            Some(module) => is_module_line(line@) && is_described(module, line@),
            None => !is_module_line(line@),
        },
{
    proof {
        reveal_strlit("M|");
    }
    let trimmed: String = text::trim_text(line);
    let chars: Vec<char> = text::chars_of(trimmed.as_str());
    let rest: String = text::text_of(&chars, 2, chars.len());
    assert(rest@ =~= text::trimmed(line@).skip(2));
    let fields: Vec<String> = text::split_text(rest.as_str(), '|');
    assert(text::views(fields@) == module_fields(line@));
    assert(forall|i: int| 0 <= i < fields@.len() ==> module_fields(line@)[i] == (#[trigger] fields@[i])@);
    if fields.len() < 8 {
        return None;
    }
    match parse_u64_field(fields[0].as_str()) {
        None => None,
        Some(capacity_bytes) => {
            let speed: Option<u32> = match parse_u32_field(fields[4].as_str()) {
                Some(speed) => Some(speed),
                None => parse_u32_field(fields[3].as_str()),
            };
            let memory_type: Option<String> = match memory_type_label(
                parse_u32_field(fields[1].as_str()),
                parse_u32_field(fields[2].as_str()),
            ) {
                Some(label) => Some(label.to_owned()),
                None => None,
            };
            Some(
                MemoryModuleInfo {
                    capacity_bytes,
                    speed_mt_s: speed,
                    manufacturer: non_empty_field(fields[5].as_str()),
                    part_number: non_empty_field(fields[6].as_str()),
                    device_locator: non_empty_field(fields[7].as_str()),
                    memory_type,
                },
            )
        },
    }
}

/// Reads the number of slots that a line tells.
fn parse_slots(line: &str) -> (r: Option<u32>)
    requires
        text::occurs_at(text::trimmed(line@), "A|"@, 0),
    ensures
        r == slots_in(line@),
{
    proof {
        reveal_strlit("A|");
    }
    let trimmed: String = text::trim_text(line);
    let chars: Vec<char> = text::chars_of(trimmed.as_str());
    let rest: String = text::text_of(&chars, 2, chars.len());
    assert(rest@ =~= text::trimmed(line@).skip(2));
    parse_u32_field(rest.as_str())
}

/// Reads a listing of memory modules: lines that begin with `M|` describe modules, lines that
/// begin with `A|` tell how many slots there are, and others are passed over.
pub fn parse_memory_hardware_output(output: &str) -> (r: Result<MemoryHardwareInfo, String>)
    ensures
        match r {
            Ok(info) => module_lines(text::lines(output@)).len() > 0 && is_listed_hardware(
                info,
                text::lines(output@),
            ),
            Err(message) => module_lines(text::lines(output@)).len() == 0 && message@
                == "no physical memory modules reported"@,
        },
{
    let lines: Vec<String> = text::split_lines(output);
    let ghost all = text::lines(output@);
    let mut modules: Vec<MemoryModuleInfo> = Vec::new();
    let mut slot_count: Option<u32> = None;
    let mut total: u64 = 0;
    let mut i: usize = 0;
    proof {
        reveal_strlit("M|");
        reveal_strlit("A|");
    }
    while i < lines.len()
        invariant
            i <= lines@.len(),
            all == text::views(lines@),
            "M|"@.len() == 2,
            "M|"@[0] == 'M',
            "A|"@.len() == 2,
            "A|"@[0] == 'A',
            modules@.len() == module_lines(all.take(i as int)).len(),
            forall|j: int|
                0 <= j < modules@.len() ==> is_described(
                    #[trigger] modules@[j],
                    module_lines(all.take(i as int))[j],
                ),
            slot_count == most_slots(all.take(i as int)),
            total == total_capacity(modules@) % 0x1_0000_0000_0000_0000,
        decreases lines@.len() - i,
    {
        assert(all.take(i + 1).drop_last() =~= all.take(i as int));
        assert(all[i as int] == lines@[i as int]@);
        let line: &str = lines[i].as_str();
        let trimmed: String = text::trim_text(line);
        if text::starts_with(trimmed.as_str(), "M|") {
            proof {
                assert(trimmed@.subrange(0, 2)[0] == 'M');
                if text::occurs_at(trimmed@, "A|"@, 0) {
                    assert(trimmed@.subrange(0, 2)[0] == 'A');
                }
            }
            if let Some(module) = parse_module(line) {
                total = total.wrapping_add(module.capacity_bytes);
                let ghost before = modules@;
                modules.push(module);
                assert(modules@.drop_last() =~= before);
            }
        } else if text::starts_with(trimmed.as_str(), "A|") {
            if let Some(told) = parse_slots(line) {
                slot_count = match slot_count {
                    Some(most) => Some(
                        if told > most {
                            told
                        } else {
                            most
                        },
                    ),
                    None => Some(told),
                };
            }
        }
        i = i + 1;
    }
    assert(all.take(i as int) =~= all);
    if modules.len() == 0 {
        return Err("no physical memory modules reported".to_owned());
    }
    let module_count: usize = modules.len();
    let memory_type: Option<String> = common_memory_type(&modules);
    let speed_mt_s: Option<u32> = common_speed(&modules);
    Ok(
        MemoryHardwareInfo {
            total_capacity_bytes: total,
            module_count,
            slot_count: match slot_count {
                Some(n) => Some(n as usize),
                None => None,
            },
            memory_type,
            speed_mt_s,
            modules,
        },
    )
}

// ---------------------------------------------------------------------------
// Words
// ---------------------------------------------------------------------------

/// How far a capacity may lie from a whole number of gibibytes to be shown as one, in bytes.
pub const WHOLE_CAPACITY_GAP: u128 = 53_687_091;

/// The distance between two numbers.
pub open spec fn distance(a: nat, b: nat) -> nat {
    if a >= b {
        (a - b) as nat
    } else {
        (b - a) as nat
    }
}

/// A capacity in gibibytes, without decimals where it is nearly whole.
pub open spec fn capacity(bytes: nat) -> Seq<char> {
    let size = double::double_of(bytes);
    let whole = double::rounded(size, double::GIB as nat);
    if distance(size, whole * double::GIB as nat) <= WHOLE_CAPACITY_GAP {
        text::decimal(whole) + " GB"@
    } else {
        text::tenths(double::rounded(10 * size, double::GIB as nat)) + " GB"@
    }
}

/// Writes a capacity in gibibytes.
pub fn format_capacity_gb(bytes: u64) -> (r: String)
    ensures
        r@ == capacity(bytes as nat),
{
    let size: u128 = double::round_to_double(bytes as u128);
    let whole: u128 = double::round_quotient(size, double::GIB);
    let gap: u128 = if size >= whole * double::GIB {
        size - whole * double::GIB
    } else {
        whole * double::GIB - size
    };
    let mut r: String = if gap <= WHOLE_CAPACITY_GAP {
        text::decimal_text(whole)
    } else {
        text::tenths_text(double::round_quotient(10 * size, double::GIB))
    };
    r.append(" GB");
    r
}

/// The capacities of modules that have one.
pub open spec fn capacities(modules: Seq<MemoryModuleInfo>) -> Seq<u64>
    decreases modules.len(),
{
    if modules.len() == 0 {
        Seq::empty()
    } else if modules.last().capacity_bytes > 0 {
        capacities(modules.drop_last()).push(modules.last().capacity_bytes)
    } else {
        capacities(modules.drop_last())
    }
}

/// Capacities as texts.
pub open spec fn capacity_texts(sizes: Seq<u64>) -> Seq<Seq<char>> {
    sizes.map_values(|size: u64| capacity(size as nat))
}

/// The modules in one text: how many of which capacity, or each capacity where they differ.
pub open spec fn layout(modules: Seq<MemoryModuleInfo>, texts: UiTexts) -> Seq<char> {
    let sizes = capacities(modules);
    if sizes.len() == 0 {
        texts.unknown@
    } else if forall|i: int| 0 <= i < sizes.len() ==> #[trigger] sizes[i] == sizes[0] {
        text::decimal(sizes.len()) + " × "@ + capacity(sizes[0] as nat)
    } else {
        text::joined(capacity_texts(sizes), " + "@)
    }
}

/// Puts the modules into one text.
pub fn format_module_layout(modules: &Vec<MemoryModuleInfo>, texts: &UiTexts) -> (r: String)
    ensures
        r@ == layout(modules@, *texts),
{
    let mut sizes: Vec<u64> = Vec::new();
    let mut i: usize = 0;
    assert(sizes@ =~= capacities(modules@.take(0)));
    while i < modules.len()
        invariant
            i <= modules@.len(),
            sizes@ == capacities(modules@.take(i as int)),
        decreases modules@.len() - i,
    {
        assert(modules@.take(i + 1).drop_last() =~= modules@.take(i as int));
        if modules[i].capacity_bytes > 0 {
            sizes.push(modules[i].capacity_bytes);
        }
        i = i + 1;
    }
    assert(modules@.take(i as int) =~= modules@);
    if sizes.len() == 0 {
        return texts.unknown.to_owned();
    }
    let mut parts: Vec<String> = Vec::new();
    let mut same: bool = true;
    let mut k: usize = 0;
    while k < sizes.len()
        invariant
            k <= sizes@.len(),
            sizes@.len() > 0,
            text::views(parts@) == capacity_texts(sizes@.take(k as int)),
            same == forall|j: int| 0 <= j < k ==> #[trigger] sizes@[j] == sizes@[0],
        decreases sizes@.len() - k,
    {
        if sizes[k] != sizes[0] {
            assert(sizes@[k as int] != sizes@[0]);
            same = false;
        }
        let ghost before = parts@;
        parts.push(format_capacity_gb(sizes[k]));
        proof {
            let shown = capacity(sizes@[k as int] as nat);
            assert(text::views(parts@) =~= text::views(before).push(shown));
            assert(capacity_texts(sizes@.take(k + 1)) =~= capacity_texts(
                sizes@.take(k as int),
            ).push(shown));
        }
        k = k + 1;
    }
    assert(sizes@.take(k as int) =~= sizes@);
    if same {
        let mut r: String = text::decimal_text(sizes.len() as u128);
        r.append(" × ");
        r.append(format_capacity_gb(sizes[0]).as_str());
        r
    } else {
        text::join_texts(&parts, " + ")
    }
}

/// Numbers as texts.
pub open spec fn number_texts(numbers: Seq<u32>) -> Seq<Seq<char>> {
    numbers.map_values(|n: u32| text::decimal(n as nat))
}

/// The speeds in one text.
pub open spec fn speed_words(info: MemoryHardwareInfo, texts: UiTexts) -> Seq<char> {
    match info.speed_mt_s {
        Some(speed) => text::decimal(speed as nat) + " MT/s"@,
        None => {
            let speeds = order::ascending(known_speeds(info.modules@));
            if speeds.len() == 0 {
                texts.unknown_frequency@
            } else {
                text::joined(number_texts(speeds), "/"@) + " MT/s"@
            }
        },
    }
}

/// Puts the speeds into one text.
pub fn format_speed_summary(info: &MemoryHardwareInfo, texts: &UiTexts) -> (r: String)
    ensures
        r@ == speed_words(*info, *texts),
{
    if let Some(speed) = info.speed_mt_s {
        let mut r: String = text::decimal_text(speed as u128);
        r.append(" MT/s");
        return r;
    }
    let speeds: Vec<u32> = distinct_speeds(&info.modules);
    if speeds.len() == 0 {
        return texts.unknown_frequency.to_owned();
    }
    let mut parts: Vec<String> = Vec::new();
    let mut i: usize = 0;
    while i < speeds.len()
        invariant
            i <= speeds@.len(),
            text::views(parts@) == number_texts(speeds@.take(i as int)),
        decreases speeds@.len() - i,
    {
        let ghost before = parts@;
        parts.push(text::decimal_text(speeds[i] as u128));
        proof {
            let shown = text::decimal(speeds@[i as int] as nat);
            assert(text::views(parts@) =~= text::views(before).push(shown));
            assert(number_texts(speeds@.take(i + 1)) =~= number_texts(
                speeds@.take(i as int),
            ).push(shown));
        }
        i = i + 1;
    }
    assert(speeds@.take(i as int) =~= speeds@);
    let mut r: String = text::join_texts(&parts, "/");
    r.append(" MT/s");
    r
}

/// The memory hardware in one line.
pub open spec fn hardware_line(info: MemoryHardwareInfo, texts: UiTexts) -> Seq<char> {
    if info.module_count == 0 || info.total_capacity_bytes == 0 {
        texts.hardware_unavailable@
    } else {
        (match info.memory_type {
            Some(kind) => kind@,
            None => texts.unknown@,
        }) + " · "@ + capacity(info.total_capacity_bytes as nat) + " · "@ + layout(
            info.modules@,
            texts,
        ) + " · "@ + speed_words(info, texts) + " · "@ + texts.slots_label@ + " "@ + text::decimal(
            info.module_count as nat,
        ) + " / "@ + (match info.slot_count {
            Some(slots) => text::decimal(slots as nat),
            None => texts.unknown@,
        })
    }
}

/// Puts the memory hardware into one line.
pub fn format_memory_hardware_summary(info: &MemoryHardwareInfo, texts: &UiTexts) -> (r: String)
    ensures
        r@ == hardware_line(*info, *texts),
{
    if info.module_count == 0 || info.total_capacity_bytes == 0 {
        return texts.hardware_unavailable.to_owned();
    }
    let mut r: String = match &info.memory_type {
        Some(kind) => kind.clone(),
        None => texts.unknown.to_owned(),
    };
    r.append(" · ");
    r.append(format_capacity_gb(info.total_capacity_bytes).as_str());
    r.append(" · ");
    r.append(format_module_layout(&info.modules, texts).as_str());
    r.append(" · ");
    r.append(format_speed_summary(info, texts).as_str());
    r.append(" · ");
    r.append(texts.slots_label);
    r.append(" ");
    r.append(text::decimal_text(info.module_count as u128).as_str());
    r.append(" / ");
    let slots: String = match info.slot_count {
        Some(slots) => text::decimal_text(slots as u128),
        None => texts.unknown.to_owned(),
    };
    r.append(slots.as_str());
    r
}

// ---------------------------------------------------------------------------
// What a listing tells
// ---------------------------------------------------------------------------

/// A field holds a positive number, with white space around it, or none.
pub proof fn fields_hold_positive_numbers(field: Seq<char>, n: nat, max: nat)
    requires
        text::trimmed(field) == text::decimal(n),
    ensures
        0 < n <= max ==> positive(field, max) == Some(n),
        n == 0 ==> positive(field, max) is None,
        n > max ==> positive(field, max) is None,
        0 < n <= u32::MAX ==> positive_u32(field) == Some(n as u32),
{
    text::numerals_are_read_back(n, max);
    text::numerals_are_read_back(n, u32::MAX as nat);
}

/// A blank field holds nothing, and any other what is in it without the white space around it.
pub proof fn blank_fields_hold_nothing(field: Seq<char>)
    ensures
        text::trimmed(field).len() == 0 <==> non_blank(field) is None,
        non_blank(field) matches Some(t) ==> t == text::trimmed(field),
{
}

/// The kinds of memory go by these codes, and by no others.
pub proof fn kinds_of_memory_are_known_by_code(code: u32)
    ensures
        kind_name(20) == Some("DDR"@),
        kind_name(21) == Some("DDR2"@),
        kind_name(24) == Some("DDR3"@),
        kind_name(26) == Some("DDR4"@),
        kind_name(27) == Some("LPDDR"@),
        kind_name(28) == Some("LPDDR2"@),
        kind_name(29) == Some("LPDDR3"@),
        kind_name(30) == Some("LPDDR4"@),
        kind_name(34) == Some("DDR5"@),
        kind_name(35) == Some("LPDDR5"@),
        kind_name(code) is Some ==> code == 20 || code == 21 || code == 24 || (26 <= code
            && code <= 30) || code == 34 || code == 35,
{
}

/// The code of the firmware decides on the kind of memory; the older code stands in for one
/// that says nothing.
pub proof fn firmware_decides_on_the_kind(smbios_type: Option<u32>, legacy_type: Option<u32>)
    ensures
        smbios_type is Some && kind_name(smbios_type->0) is Some ==> known_type(
            smbios_type,
            legacy_type,
        ) == kind_name(smbios_type->0),
        (smbios_type is None || kind_name(smbios_type->0) is None) && legacy_type is Some
            ==> known_type(smbios_type, legacy_type) == kind_name(legacy_type->0),
        (smbios_type is None || kind_name(smbios_type->0) is None) && legacy_type is None
            ==> known_type(smbios_type, legacy_type) is None,
{
}

/// A line describes a module if it begins with `M|`, has at least eight fields behind that, and
/// the first of them is a capacity.
pub proof fn module_lines_are_marked(line: Seq<char>)
    ensures
        is_module_line(line) <==> {
            let fields = text::pieces(text::trimmed(line).skip(2), '|');
            &&& text::occurs_at(text::trimmed(line), "M|"@, 0)
            &&& fields.len() >= 8
            &&& positive(fields[0], 0xffff_ffff_ffff_ffff) is Some
        },
{
}

/// The fields of a module are its capacity, its kind by two codes, its rated and its actual
/// speed, its manufacturer, its part number and its slot. The actual speed counts, where there
/// is one.
pub proof fn modules_are_described_field_by_field(module: MemoryModuleInfo, line: Seq<char>)
    requires
        is_described(module, line),
    ensures
        ({
            let fields = text::pieces(text::trimmed(line).skip(2), '|');
            &&& positive(fields[0], 0xffff_ffff_ffff_ffff) == Some(module.capacity_bytes as nat)
            &&& positive_u32(fields[4]) is Some ==> module.speed_mt_s == positive_u32(fields[4])
            &&& positive_u32(fields[4]) is None ==> module.speed_mt_s == positive_u32(fields[3])
            &&& text::optional(module.manufacturer) == non_blank(fields[5])
            &&& text::optional(module.part_number) == non_blank(fields[6])
            &&& text::optional(module.device_locator) == non_blank(fields[7])
            &&& text::optional(module.memory_type) == known_type(
                positive_u32(fields[1]),
                positive_u32(fields[2]),
            )
        }),
{
}

/// Every line that describes a module is taken, in order, and no other.
pub proof fn module_lines_are_taken_in_order(lines: Seq<Seq<char>>, line: Seq<char>)
    ensures
        module_lines(Seq::empty()) == Seq::<Seq<char>>::empty(),
        is_module_line(line) ==> module_lines(lines.push(line)) == module_lines(lines).push(line),
        !is_module_line(line) ==> module_lines(lines.push(line)) == module_lines(lines),
{
    assert(lines.push(line).drop_last() =~= lines);
}

/// The number of slots is the largest that any line tells.
pub proof fn slots_are_the_most_told(lines: Seq<Seq<char>>, i: int)
    requires
        0 <= i < lines.len(),
    ensures
        slots_in(lines[i]) matches Some(told) ==> most_slots(lines) is Some && told
            <= most_slots(lines)->0,
        most_slots(lines) is Some ==> exists|k: int|
            0 <= k < lines.len() && slots_in(#[trigger] lines[k]) == most_slots(lines),
        text::occurs_at(text::trimmed(lines[i]), "A|"@, 0) ==> slots_in(lines[i]) == positive_u32(
            text::trimmed(lines[i]).skip(2),
        ),
        !text::occurs_at(text::trimmed(lines[i]), "A|"@, 0) ==> slots_in(lines[i]) is None,
    decreases lines.len(),
{
    let shorter = lines.drop_last();
    if shorter.len() > 0 {
        let j = if i < shorter.len() {
            i
        } else {
            0
        };
        slots_are_the_most_told(shorter, j);
        if i < shorter.len() {
            assert(shorter[i] == lines[i]);
        }
    }
    if most_slots(lines) is Some {
        if slots_in(lines.last()) == most_slots(lines) {
            assert(slots_in(lines[lines.len() - 1]) == most_slots(lines));
        } else {
            assert(most_slots(shorter) == most_slots(lines));
            let k = choose|k: int|
                0 <= k < shorter.len() && slots_in(#[trigger] shorter[k]) == most_slots(shorter);
            assert(lines[k] == shorter[k]);
        }
    }
}

/// What a listing tells: its modules, how many there are, and their capacities added up.
pub proof fn listings_add_up(info: MemoryHardwareInfo, lines: Seq<Seq<char>>)
    requires
        is_listed_hardware(info, lines),
    ensures
        info.module_count == info.modules@.len(),
        info.modules@.len() == module_lines(lines).len(),
        total_capacity(info.modules@) <= u64::MAX ==> info.total_capacity_bytes == total_capacity(
            info.modules@,
        ),
        info.slot_count is Some <==> most_slots(lines) is Some,
        most_slots(lines) matches Some(n) ==> info.slot_count->0 == n,
        info.speed_mt_s == shared_speed(info.modules@),
        text::optional(info.memory_type) == common_type(info.modules@),
{
}

/// Capacities, kinds and speeds are gathered from every module that has one.
pub proof fn every_module_counts(modules: Seq<MemoryModuleInfo>, module: MemoryModuleInfo)
    ensures
        total_capacity(Seq::empty()) == 0,
        total_capacity(modules.push(module)) == total_capacity(modules) + module.capacity_bytes,
        module.capacity_bytes > 0 ==> capacities(modules.push(module)) == capacities(modules).push(
            module.capacity_bytes,
        ),
        module.capacity_bytes == 0 ==> capacities(modules.push(module)) == capacities(modules),
        module.speed_mt_s is Some && module.speed_mt_s->0 > 0 ==> known_speeds(
            modules.push(module),
        ) == known_speeds(modules).push(module.speed_mt_s->0),
        module.speed_mt_s is None || module.speed_mt_s->0 == 0 ==> known_speeds(
            modules.push(module),
        ) == known_speeds(modules),
        module.memory_type is Some && module.memory_type->0@.len() > 0 ==> known_types(
            modules.push(module),
        ) == known_types(modules).push(module.memory_type->0@),
        module.memory_type is None || module.memory_type->0@.len() == 0 ==> known_types(
            modules.push(module),
        ) == known_types(modules),
        known_speeds(Seq::empty()) == Seq::<u32>::empty(),
        known_types(Seq::empty()) == Seq::<Seq<char>>::empty(),
        capacities(Seq::empty()) == Seq::<u64>::empty(),
{
    assert(modules.push(module).drop_last() =~= modules);
}

/// A speed is shared if it is the only one known.
pub proof fn shared_speeds_are_the_only_ones(modules: Seq<MemoryModuleInfo>, i: int)
    requires
        0 <= i < known_speeds(modules).len(),
        exists|r: Seq<u32>| order::is_distinct_ascending(r, known_speeds(modules)),
    ensures
        shared_speed(modules) matches Some(speed) ==> known_speeds(modules)[i] == speed,
        (forall|j: int|
            0 <= j < known_speeds(modules).len() ==> #[trigger] known_speeds(modules)[j]
                == known_speeds(modules)[i]) ==> shared_speed(modules) == Some(
            known_speeds(modules)[i],
        ),
{
    let values = known_speeds(modules);
    let r = order::ascending(values);
    assert(order::is_distinct_ascending(r, values));
    assert(values.contains(values[i]));
    assert(r.contains(values[i]));
    if r.len() == 1 {
        assert(r[0] == values[i]);
    }
    if forall|j: int| 0 <= j < values.len() ==> #[trigger] values[j] == values[i] {
        assert forall|k: int| 0 <= k < r.len() implies r[k] == values[i] by {
            assert(r.contains(r[k]));
            assert(values.contains(r[k]));
            let j = choose|j: int| 0 <= j < values.len() && values[j] == r[k];
            assert(values[j] == values[i]);
        }
        if r.len() > 1 {
            assert(r[0] < r[1]);
        }
    }
}

/// A capacity within 53,687,091 bytes of a whole number of gibibytes is shown as that number,
/// and any other with one decimal.
pub proof fn nearly_whole_capacities_are_shown_whole(bytes: nat, whole: nat)
    requires
        bytes < 9007199254740992,
    ensures
        distance(bytes, whole * 1073741824) <= 53_687_091 ==> capacity(bytes) == text::decimal(
            whole,
        ) + " GB"@,
        (forall|w: nat| distance(bytes, #[trigger] (w * 1073741824)) > 53_687_091) ==> capacity(
            bytes,
        ) == text::tenths(double::rounded(10 * bytes, 1073741824)) + " GB"@,
{
    double::small_integers_are_exact(bytes);
    if distance(bytes, whole * 1073741824) <= 53_687_091 {
        double::near_fractions_round_to_the_integer(bytes, 1073741824, whole);
    }
    let w = double::rounded(bytes, 1073741824);
    if forall|w: nat| distance(bytes, #[trigger] (w * 1073741824)) > 53_687_091 {
        assert(distance(bytes, w * 1073741824) > 53_687_091);
    }
}

/// The distance of two numbers is the larger one without the smaller.
pub proof fn distances_go_both_ways(a: nat, b: nat)
    ensures
        a >= b ==> distance(a, b) == a - b,
        a <= b ==> distance(a, b) == b - a,
{
}

/// Modules of one capacity are shown as how many of it there are, and others one by one.
pub proof fn modules_are_laid_out(modules: Seq<MemoryModuleInfo>, texts: UiTexts)
    ensures
        capacities(modules).len() == 0 ==> layout(modules, texts) == texts.unknown@,
        capacities(modules).len() > 0 && (forall|i: int|
            0 <= i < capacities(modules).len() ==> #[trigger] capacities(modules)[i] == capacities(
                modules,
            )[0]) ==> layout(modules, texts) == text::decimal(capacities(modules).len()) + " × "@
            + capacity(capacities(modules)[0] as nat),
        (exists|i: int|
            0 <= i < capacities(modules).len() && #[trigger] capacities(modules)[i] != capacities(
                modules,
            )[0]) ==> layout(modules, texts) == text::joined(
            capacity_texts(capacities(modules)),
            " + "@,
        ),
{
}

/// A shared speed is shown by itself, several one after the other, and none as unknown.
pub proof fn speeds_are_shown(info: MemoryHardwareInfo, texts: UiTexts)
    ensures
        info.speed_mt_s matches Some(speed) ==> speed_words(info, texts) == text::decimal(
            speed as nat,
        ) + " MT/s"@,
        info.speed_mt_s is None && order::ascending(known_speeds(info.modules@)).len() == 0
            ==> speed_words(info, texts) == texts.unknown_frequency@,
        info.speed_mt_s is None && order::ascending(known_speeds(info.modules@)).len() > 0
            ==> speed_words(info, texts) == text::joined(
            number_texts(order::ascending(known_speeds(info.modules@))),
            "/"@,
        ) + " MT/s"@,
{
}

/// Hardware of which nothing is known is shown as unavailable; otherwise the line begins with
/// the kind and ends with the slots in use and the slots there are.
pub proof fn hardware_is_shown_in_one_line(info: MemoryHardwareInfo, texts: UiTexts)
    ensures
        info.module_count == 0 || info.total_capacity_bytes == 0 ==> hardware_line(info, texts)
            == texts.hardware_unavailable@,
        info.module_count > 0 && info.total_capacity_bytes > 0 ==> hardware_line(info, texts) == (
        match info.memory_type {
            Some(kind) => kind@,
            None => texts.unknown@,
        }) + " · "@ + capacity(info.total_capacity_bytes as nat) + " · "@ + layout(
            info.modules@,
            texts,
        ) + " · "@ + speed_words(info, texts) + " · "@ + texts.slots_label@ + " "@ + text::decimal(
            info.module_count as nat,
        ) + " / "@ + (match info.slot_count {
            Some(slots) => text::decimal(slots as nat),
            None => texts.unknown@,
        }),
{
}

/// The kinds of all modules are named once each, with a stroke between them; where no kind is
/// known, none is named.
pub proof fn kinds_are_named_once_each(modules: Seq<MemoryModuleInfo>)
    ensures
        ({
            let kinds = order::sorted_distinct(known_types(modules));
            &&& kinds.len() == 0 ==> common_type(modules) is None
            &&& kinds.len() == 1 ==> common_type(modules) == Some(kinds[0])
            &&& kinds.len() == 2 ==> common_type(modules) == Some(kinds[0] + "/"@ + kinds[1])
            &&& kinds.len() > 0 ==> common_type(modules) == Some(text::joined(kinds, "/"@))
        }),
{
    let kinds = order::sorted_distinct(known_types(modules));
    if kinds.len() == 1 {
        text::joining_separates_neighbours(Seq::empty(), kinds[0], "/"@);
        assert(Seq::<Seq<char>>::empty().push(kinds[0]) =~= kinds);
    }
    if kinds.len() == 2 {
        let first = Seq::<Seq<char>>::empty().push(kinds[0]);
        text::joining_separates_neighbours(Seq::empty(), kinds[0], "/"@);
        text::joining_separates_neighbours(first, kinds[1], "/"@);
        assert(first.push(kinds[1]) =~= kinds);
    }
}

} // verus!
