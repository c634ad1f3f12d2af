//! Installed PassThru devices: the entries of the PassThruSupport registry
//! keys become device descriptions (cleaned names, supported protocols,
//! availability), and the PE header of a driver library gives its bitness.
//! Reading the registry and the files stays with the caller.

use vstd::prelude::*;
use vstd::string::*;
use crate::text::{is_white, is_white_char, push_char, push_str, push_hex_pair, hex_pair, str_equals};

verus! {

/// Everything of `s` with each non-overlapping occurrence of `p`, scanned
/// from the left, removed (`str::replace(p, "")`).
pub open spec fn remove_all(s: Seq<char>, p: Seq<char>) -> Seq<char>
    decreases s.len(),
{
    if p.len() == 0 || s.len() < p.len() {
        s
    } else if s.take(p.len() as int) == p {
        remove_all(s.skip(p.len() as int), p)
    } else {
        seq![s[0]] + remove_all(s.drop_first(), p)
    }
}

/// Removes every occurrence of `p` from `s`.
pub fn remove_all_str(s: &str, p: &str) -> (r: String)
    ensures
        r@ == remove_all(s@, p@),
{
    let n = s.unicode_len();
    let m = p.unicode_len();
    if m == 0 {
        return String::from_str(s);
    }
    let mut out = String::new();
    let mut i: usize = 0;
    assert(s@.skip(0) =~= s@);
    assert(out@ =~= Seq::<char>::empty());
    while i < n
        invariant
            n == s@.len(),
            m == p@.len(),
            m > 0,
            i <= n,
            out@ + remove_all(s@.skip(i as int), p@) == remove_all(s@, p@),
        decreases n - i,
    {
        let ghost rest = s@.skip(i as int);
        if m <= n - i && str_equals(s.substring_char(i, i + m), p) {
            assert(rest.take(m as int) =~= s@.subrange(i as int, (i + m) as int));
            assert(rest.skip(m as int) =~= s@.skip((i + m) as int));
            i = i + m;
        } else {
            let c = s.get_char(i);
            proof {
                if m <= n - i {
                    assert(rest.take(m as int) =~= s@.subrange(i as int, (i + m) as int));
                }
                assert(rest.drop_first() =~= s@.skip(i + 1));
                if rest.len() < m {
                    assert(rest =~= seq![c] + rest.drop_first());
                }
            }
            let ghost before = out@;
            push_char(&mut out, c);
            assert(before + remove_all(rest, p@) =~= out@ + remove_all(s@.skip(i + 1), p@));
            i = i + 1;
        }
    }
    assert(s@.skip(n as int) =~= Seq::<char>::empty());
    out
}

/// Whitespace runs collapsed: the words of `s` joined by single spaces,
/// without leading or trailing space. `started` says a word was seen,
/// `pending` that whitespace followed it.
pub open spec fn squash(s: Seq<char>, started: bool, pending: bool) -> Seq<char>
    decreases s.len(),
{
    if s.len() == 0 {
        Seq::empty()
    } else if is_white(s[0]) {
        squash(s.drop_first(), started, started)
    } else {
        (if pending { seq![' '] } else { Seq::empty() }) + seq![s[0]] + squash(s.drop_first(), true, false)
    }
}

/// The words of `s` joined by single spaces
/// (`split_whitespace().collect::<Vec<_>>().join(" ")`).
pub open spec fn collapse_whitespace(s: Seq<char>) -> Seq<char> {
    squash(s, false, false)
}

/// Joins the words of `s` with single spaces.
pub fn collapse_whitespace_str(s: &str) -> (r: String)
    ensures
        r@ == collapse_whitespace(s@),
{
    let n = s.unicode_len();
    let mut out = String::new();
    let mut started = false;
    let mut pending = false;
    let mut i: usize = 0;
    assert(s@.skip(0) =~= s@);
    assert(out@ =~= Seq::<char>::empty());
    while i < n
        invariant
            n == s@.len(),
            i <= n,
            !started ==> !pending,
            out@ + squash(s@.skip(i as int), started, pending) == collapse_whitespace(s@),
        decreases n - i,
    {
        let c = s.get_char(i);
        let ghost rest = s@.skip(i as int);
        assert(rest.drop_first() =~= s@.skip(i + 1));
        assert(rest[0] == c);
        if is_white_char(c) {
            pending = started;
        } else {
            let ghost before = out@;
            if pending {
                push_char(&mut out, ' ');
            }
            push_char(&mut out, c);
            assert(before + squash(rest, started, pending) =~= out@ + squash(s@.skip(i + 1), true, false));
            started = true;
            pending = false;
        }
        i = i + 1;
    }
    assert(s@.skip(n as int) =~= Seq::<char>::empty());
    out
}

/// A registry device name without the bitness and compatibility markers
/// some installers append, with whitespace collapsed.
pub open spec fn clean_name(name: Seq<char>) -> Seq<char> {
    collapse_whitespace(
        remove_all(remove_all(remove_all(remove_all(remove_all(remove_all(remove_all(remove_all(remove_all(
            name, "(64-bit)"@), "(32-bit)"@), "(64 bit)"@), "(32 bit)"@), "(incompatible)"@),
            "(compatible)"@), "(x64)"@), "(x86)"@), "(missing)"@),
    )
}

/// Cleans a registry device name.
pub fn clean_device_name(name: &str) -> (r: String)
    ensures
        r@ == clean_name(name@),
{
    let a = remove_all_str(name, "(64-bit)");
    let b = remove_all_str(a.as_str(), "(32-bit)");
    let c = remove_all_str(b.as_str(), "(64 bit)");
    let d = remove_all_str(c.as_str(), "(32 bit)");
    let e = remove_all_str(d.as_str(), "(incompatible)");
    let f = remove_all_str(e.as_str(), "(compatible)");
    let g = remove_all_str(f.as_str(), "(x64)");
    let h = remove_all_str(g.as_str(), "(x86)");
    let i = remove_all_str(h.as_str(), "(missing)");
    collapse_whitespace_str(i.as_str())
}

/// The protocol values of a device's registry key; `None` where the value
/// is absent.
#[derive(Debug, Clone, Copy, Default)]
pub struct ProtocolFlags {
    pub can: Option<u32>,
    pub iso15765: Option<u32>,
    pub iso9141: Option<u32>,
    pub iso14230: Option<u32>,
    pub j1850pwm: Option<u32>,
    pub j1850vpw: Option<u32>,
    pub can_fd_ps: Option<u32>,
    pub iso15765_fd_ps: Option<u32>,
    pub sw_can_ps: Option<u32>,
    pub tp2_0_ps: Option<u32>,
}

/// A registry value read as a flag, `default_on` when absent.
pub open spec fn flag_on(v: Option<u32>, default_on: bool) -> bool {
    match v {
        Some(x) => x != 0,
        None => default_on,
    }
}

/// `[name]` when `on`, nothing otherwise.
pub open spec fn listed(on: bool, name: Seq<char>) -> Seq<Seq<char>> {
    if on { seq![name] } else { Seq::empty() }
}

/// The display names of the protocols a device supports, in registry
/// order. Version 5 entries, which usually omit the values, count CAN and
/// ISO 15765 as present.
pub open spec fn supported_protocol_names(f: ProtocolFlags, v5: bool) -> Seq<Seq<char>> {
    listed(flag_on(f.can, v5), "CAN"@)
        + listed(flag_on(f.iso15765, v5), "ISO-TP"@)
        + listed(flag_on(f.iso9141, false), "ISO 9141"@)
        + listed(flag_on(f.iso14230, false), "ISO 14230"@)
        + listed(flag_on(f.j1850pwm, false), "J1850 PWM"@)
        + listed(flag_on(f.j1850vpw, false), "J1850 VPW"@)
        + listed(flag_on(f.can_fd_ps, false), "CAN-FD"@)
        + listed(flag_on(f.iso15765_fd_ps, false), "ISO-TP FD"@)
        + listed(flag_on(f.sw_can_ps, false), "SW-CAN"@)
        + listed(flag_on(f.tp2_0_ps, false), "TP 2.0"@)
}

/// A registry value that is set and not zero.
pub open spec fn value_set(v: Option<u32>) -> bool {
    v matches Some(x) && x != 0
}

proof fn lemma_listed_contains(on: bool, name: Seq<char>, x: Seq<char>)
    ensures
        listed(on, name).contains(x) <==> (on && x == name),
{
    if on && x == name {
        assert(listed(on, name)[0] == x);
    }
}

proof fn lemma_concat_contains(a: Seq<Seq<char>>, b: Seq<Seq<char>>, x: Seq<char>)
    ensures
        (a + b).contains(x) <==> (a.contains(x) || b.contains(x)),
{
    if a.contains(x) {
        let i = choose|i: int| 0 <= i < a.len() && a[i] == x;
        assert((a + b)[i] == x);
    }
    if b.contains(x) {
        let i = choose|i: int| 0 <= i < b.len() && b[i] == x;
        assert((a + b)[a.len() + i] == x);
    }
    if (a + b).contains(x) {
        let i = choose|i: int| 0 <= i < (a + b).len() && (a + b)[i] == x;
        if i < a.len() {
            assert(a[i] == x);
        } else {
            assert(b[i - a.len()] == x);
        }
    }
}

/// The ten display names, in registry order.
pub open spec fn protocol_display_names() -> Seq<Seq<char>> {
    seq!["CAN"@, "ISO-TP"@, "ISO 9141"@, "ISO 14230"@, "J1850 PWM"@, "J1850 VPW"@, "CAN-FD"@,
        "ISO-TP FD"@, "SW-CAN"@, "TP 2.0"@]
}

/// Whether each protocol's registry value is on, in the same order.
pub open spec fn protocol_values_on(f: ProtocolFlags, v5: bool) -> Seq<bool> {
    seq![
        value_set(f.can) || (f.can is None && v5),
        value_set(f.iso15765) || (f.iso15765 is None && v5),
        value_set(f.iso9141),
        value_set(f.iso14230),
        value_set(f.j1850pwm),
        value_set(f.j1850vpw),
        value_set(f.can_fd_ps),
        value_set(f.iso15765_fd_ps),
        value_set(f.sw_can_ps),
        value_set(f.tp2_0_ps),
    ]
}

proof fn lemma_ten_listed(ons: Seq<bool>, names: Seq<Seq<char>>, y: Seq<char>)
    requires
        ons.len() == 10,
        names.len() == 10,
    ensures
        listed_ten(ons, names).contains(y) <==> (exists|k: int| 0 <= k < 10 && ons[k] && names[k] == y),
{
    reveal(listed_ten);
    let l0 = listed(ons[0], names[0]);
    let l1 = listed(ons[1], names[1]);
    let l2 = listed(ons[2], names[2]);
    let l3 = listed(ons[3], names[3]);
    let l4 = listed(ons[4], names[4]);
    let l5 = listed(ons[5], names[5]);
    let l6 = listed(ons[6], names[6]);
    let l7 = listed(ons[7], names[7]);
    let l8 = listed(ons[8], names[8]);
    let l9 = listed(ons[9], names[9]);
    lemma_concat_contains(l0, l1, y);
    lemma_concat_contains(l0 + l1, l2, y);
    lemma_concat_contains(l0 + l1 + l2, l3, y);
    lemma_concat_contains(l0 + l1 + l2 + l3, l4, y);
    lemma_concat_contains(l0 + l1 + l2 + l3 + l4, l5, y);
    lemma_concat_contains(l0 + l1 + l2 + l3 + l4 + l5, l6, y);
    lemma_concat_contains(l0 + l1 + l2 + l3 + l4 + l5 + l6, l7, y);
    lemma_concat_contains(l0 + l1 + l2 + l3 + l4 + l5 + l6 + l7, l8, y);
    lemma_concat_contains(l0 + l1 + l2 + l3 + l4 + l5 + l6 + l7 + l8, l9, y);
    lemma_listed_contains(ons[0], names[0], y);
    lemma_listed_contains(ons[1], names[1], y);
    lemma_listed_contains(ons[2], names[2], y);
    lemma_listed_contains(ons[3], names[3], y);
    lemma_listed_contains(ons[4], names[4], y);
    lemma_listed_contains(ons[5], names[5], y);
    lemma_listed_contains(ons[6], names[6], y);
    lemma_listed_contains(ons[7], names[7], y);
    lemma_listed_contains(ons[8], names[8], y);
    lemma_listed_contains(ons[9], names[9], y);
    if exists|k: int| 0 <= k < 10 && ons[k] && names[k] == y {
        let k = choose|k: int| 0 <= k < 10 && ons[k] && names[k] == y;
        assert(k == 0 || k == 1 || k == 2 || k == 3 || k == 4 || k == 5 || k == 6 || k == 7 || k == 8 || k == 9);
    }
}

/// The ten display names differ from each other.
proof fn lemma_display_names_distinct()
    ensures
        forall|i: int, j: int| 0 <= i < 10 && 0 <= j < 10 && i != j
            ==> #[trigger] protocol_display_names()[i] != #[trigger] protocol_display_names()[j],
{
    reveal_strlit("CAN");
    reveal_strlit("ISO-TP");
    reveal_strlit("ISO 9141");
    reveal_strlit("ISO 14230");
    reveal_strlit("J1850 PWM");
    reveal_strlit("J1850 VPW");
    reveal_strlit("CAN-FD");
    reveal_strlit("ISO-TP FD");
    reveal_strlit("SW-CAN");
    reveal_strlit("TP 2.0");
    let n = protocol_display_names();
    // A signature that tells the names apart: length, then a few characters.
    assert(n[0].len() == 3);
    assert(n[1].len() == 6 && n[1][0] == 'I' && n[1][4] == 'T');
    assert(n[2].len() == 8);
    assert(n[3].len() == 9 && n[3][0] == 'I');
    assert(n[4].len() == 9 && n[4][0] == 'J' && n[4][6] == 'P');
    assert(n[5].len() == 9 && n[5][0] == 'J' && n[5][6] == 'V');
    assert(n[6].len() == 6 && n[6][0] == 'C');
    assert(n[7].len() == 9 && n[7][0] == 'I' && n[7][4] == 'T');
    assert(n[3][4] == '1');
    assert(n[8].len() == 6 && n[8][0] == 'S');
    assert(n[9].len() == 6 && n[9][0] == 'T');
    assert(n[1][0] == 'I');
}

proof fn lemma_names_as_listed(f: ProtocolFlags, v5: bool)
    ensures
        ({
            let names = protocol_display_names();
            let ons = protocol_values_on(f, v5);
            supported_protocol_names(f, v5) == listed_ten(ons, names)
        }),
{
    reveal(listed_ten);
    let names = protocol_display_names();
    let ons = protocol_values_on(f, v5);
    assert(names[0] == "CAN"@ && names[1] == "ISO-TP"@ && names[2] == "ISO 9141"@ && names[3] == "ISO 14230"@
        && names[4] == "J1850 PWM"@ && names[5] == "J1850 VPW"@ && names[6] == "CAN-FD"@
        && names[7] == "ISO-TP FD"@ && names[8] == "SW-CAN"@ && names[9] == "TP 2.0"@);
    assert(ons[0] == flag_on(f.can, v5) && ons[1] == flag_on(f.iso15765, v5)
        && ons[2] == flag_on(f.iso9141, false) && ons[3] == flag_on(f.iso14230, false)
        && ons[4] == flag_on(f.j1850pwm, false) && ons[5] == flag_on(f.j1850vpw, false)
        && ons[6] == flag_on(f.can_fd_ps, false) && ons[7] == flag_on(f.iso15765_fd_ps, false)
        && ons[8] == flag_on(f.sw_can_ps, false) && ons[9] == flag_on(f.tp2_0_ps, false));
}

/// The ten names listed by their flags.
#[verifier::opaque]
pub open spec fn listed_ten(ons: Seq<bool>, names: Seq<Seq<char>>) -> Seq<Seq<char>> {
    listed(ons[0], names[0]) + listed(ons[1], names[1]) + listed(ons[2], names[2]) + listed(ons[3], names[3])
        + listed(ons[4], names[4]) + listed(ons[5], names[5]) + listed(ons[6], names[6])
        + listed(ons[7], names[7]) + listed(ons[8], names[8]) + listed(ons[9], names[9])
}

proof fn lemma_listed_ten_membership(ons: Seq<bool>, names: Seq<Seq<char>>, x: Seq<char>)
    requires
        ons.len() == 10,
        names.len() == 10,
        forall|i: int, j: int| 0 <= i < 10 && 0 <= j < 10 && i != j ==> #[trigger] names[i] != #[trigger] names[j],
    ensures
        forall|k: int| 0 <= k < 10 ==> (listed_ten(ons, names).contains(#[trigger] names[k]) <==> ons[k]),
        listed_ten(ons, names).contains(x) ==> names.contains(x),
{
    assert forall|k: int| 0 <= k < 10 implies (listed_ten(ons, names).contains(#[trigger] names[k]) <==> ons[k]) by {
        lemma_ten_listed(ons, names, names[k]);
        if exists|m: int| 0 <= m < 10 && ons[m] && names[m] == names[k] {
            let m = choose|m: int| 0 <= m < 10 && ons[m] && names[m] == names[k];
            assert(m == k);
        }
    }
    lemma_ten_listed(ons, names, x);
    if listed_ten(ons, names).contains(x) {
        let k = choose|k: int| 0 <= k < 10 && ons[k] && names[k] == x;
        assert(names[k] == x);
    }
}

/// Each protocol's display name is listed exactly when its own registry
/// value is set (CAN and ISO-TP also when the value is absent from a
/// version 5 entry), and nothing else is listed.
pub proof fn lemma_supported_protocols_membership(f: ProtocolFlags, v5: bool, x: Seq<char>)
    ensures
        forall|k: int| 0 <= k < 10 ==>
            (supported_protocol_names(f, v5).contains(#[trigger] protocol_display_names()[k])
                <==> protocol_values_on(f, v5)[k]),
        supported_protocol_names(f, v5).contains(x) ==> protocol_display_names().contains(x),
{
    lemma_display_names_distinct();
    lemma_names_as_listed(f, v5);
    lemma_listed_ten_membership(protocol_values_on(f, v5), protocol_display_names(), x);
}

/// Texts of a sequence of strings.
pub open spec fn texts(v: Seq<String>) -> Seq<Seq<char>> {
    v.map_values(|s: String| s@)
}

fn is_on(v: Option<u32>, default_on: bool) -> (b: bool)
    ensures
        b == flag_on(v, default_on),
{
    match v {
        Some(x) => x != 0,
        None => default_on,
    }
}

fn list_if(out: &mut Vec<String>, on: bool, name: &str)
    ensures
        texts(final(out)@) == texts(old(out)@) + listed(on, name@),
{
    let ghost before = out@;
    if on {
        out.push(String::from_str(name));
    }
    assert(texts(out@) =~= texts(before) + listed(on, name@));
}

/// Lists the protocols a device supports.
pub fn supported_protocols(f: &ProtocolFlags, v5: bool) -> (v: Vec<String>)
    ensures
        texts(v@) == supported_protocol_names(*f, v5),
{
    let mut v: Vec<String> = Vec::new();
    assert(texts(v@) =~= Seq::<Seq<char>>::empty());
    list_if(&mut v, is_on(f.can, v5), "CAN");
    list_if(&mut v, is_on(f.iso15765, v5), "ISO-TP");
    list_if(&mut v, is_on(f.iso9141, false), "ISO 9141");
    list_if(&mut v, is_on(f.iso14230, false), "ISO 14230");
    list_if(&mut v, is_on(f.j1850pwm, false), "J1850 PWM");
    list_if(&mut v, is_on(f.j1850vpw, false), "J1850 VPW");
    list_if(&mut v, is_on(f.can_fd_ps, false), "CAN-FD");
    list_if(&mut v, is_on(f.iso15765_fd_ps, false), "ISO-TP FD");
    list_if(&mut v, is_on(f.sw_can_ps, false), "SW-CAN");
    list_if(&mut v, is_on(f.tp2_0_ps, false), "TP 2.0");
    assert(texts(v@) =~= supported_protocol_names(*f, v5));
    v
}

/// One device key under a PassThruSupport registry key.
#[derive(Debug, Clone)]
pub struct RegistryEntry {
    /// The key's own name (used when there is no `Name` value).
    pub key_name: String,
    pub name: Option<String>,
    pub vendor: Option<String>,
    pub function_library: Option<String>,
    pub flags: ProtocolFlags,
}

/// What the driver library on disk tells: its bitness (32 or 64, from its
/// PE machine type), and the API version it implements.
#[derive(Debug)]
pub struct LibraryFacts {
    bitness: u8,
    api_version: String,
}

impl LibraryFacts {
    #[verifier::type_invariant]
    spec fn known_bitness(self) -> bool {
        self.bitness == 32 || self.bitness == 64
    }

    /// The library's bitness.
    pub closed spec fn bits(self) -> u8 {
        self.bitness
    }

    /// The API version the library implements.
    pub closed spec fn version(self) -> Seq<char> {
        self.api_version@
    }

    /// The facts of a library whose PE header names `machine`: none when
    /// the machine type has no known bitness.
    pub fn from_machine(machine: u16, api_version: String) -> (r: Option<LibraryFacts>)
        ensures
            match machine_bits_of(machine) {
                Some(b) => r matches Some(f) && f.bits() == b && f.version() == api_version@,
                None => r is None,
            },
    {
        match machine_bits(machine) {
            Some(bitness) => Some(LibraryFacts { bitness, api_version }),
            None => None,
        }
    }

    /// The library's bitness.
    pub fn bitness(&self) -> (b: u8)
        ensures
            b == self.bits(),
            b == 32 || b == 64,
    {
        proof { use_type_invariant(self); }
        self.bitness
    }

    /// The API version the library implements.
    pub fn api_version(&self) -> (s: &str)
        ensures
            s@ == self.version(),
    {
        self.api_version.as_str()
    }
}

/// The bitness of this process: 64 on a 64-bit target, else 32.
pub open spec fn native_bitness(native_64: bool) -> u8 {
    if native_64 { 64 } else { 32 }
}

/// An installed device.
#[derive(Debug, Clone)]
pub struct J2534Device {
    pub name: String,
    pub vendor: String,
    pub dll_path: String,
    pub can_iso15765: bool,
    pub can_iso11898: bool,
    pub compatible: bool,
    pub bitness: u8,
    pub available: bool,
    pub unavailable_reason: Option<String>,
    pub api_version: String,
    pub supported_protocols: Vec<String>,
}

/// Model of a device.
pub struct DeviceView {
    pub name: Seq<char>,
    pub vendor: Seq<char>,
    pub dll_path: Seq<char>,
    pub can_iso15765: bool,
    pub can_iso11898: bool,
    pub compatible: bool,
    pub bitness: u8,
    pub available: bool,
    pub unavailable_reason: Option<Seq<char>>,
    pub api_version: Seq<char>,
    pub supported_protocols: Seq<Seq<char>>,
}

impl View for J2534Device {
    type V = DeviceView;

    open spec fn view(&self) -> DeviceView {
        DeviceView {
            name: self.name@,
            vendor: self.vendor@,
            dll_path: self.dll_path@,
            can_iso15765: self.can_iso15765,
            can_iso11898: self.can_iso11898,
            compatible: self.compatible,
            bitness: self.bitness,
            available: self.available,
            unavailable_reason: match self.unavailable_reason {
                Some(r) => Some(r@),
                None => None,
            },
            api_version: self.api_version@,
            supported_protocols: texts(self.supported_protocols@),
        }
    }
}

/// Models of a list of devices.
pub open spec fn device_views(v: Seq<J2534Device>) -> Seq<DeviceView> {
    v.map_values(|d: J2534Device| d@)
}

/// A string value, or `default` when absent.
pub open spec fn text_or(v: Option<String>, default: Seq<char>) -> Seq<char> {
    match v {
        Some(s) => s@,
        None => default,
    }
}

/// The driver library an entry names (empty when it names none).
pub open spec fn entry_dll_path(e: RegistryEntry) -> Seq<char> {
    text_or(e.function_library, Seq::empty())
}

/// Some listed device has this name.
pub open spec fn name_taken(devices: Seq<DeviceView>, name: Seq<char>) -> bool {
    exists|i: int| 0 <= i < devices.len() && #[trigger] devices[i].name == name
}

/// Some listed device uses this driver library.
pub open spec fn path_taken(devices: Seq<DeviceView>, path: Seq<char>) -> bool {
    exists|i: int| 0 <= i < devices.len() && #[trigger] devices[i].dll_path == path
}

/// An entry joins the list when it names a driver library that no listed
/// device uses yet.
pub open spec fn admits(devices: Seq<DeviceView>, e: RegistryEntry) -> bool {
    entry_dll_path(e).len() > 0 && !path_taken(devices, entry_dll_path(e))
}

/// The device an entry describes, given what is already listed, the
/// registry it comes from (version 5 or not), what the library on disk
/// tells (`None` when it cannot be read), and this program's own bitness.
pub open spec fn device_of(devices: Seq<DeviceView>, e: RegistryEntry, v5: bool, facts: Option<LibraryFacts>, native_64: bool) -> DeviceView {
    let clean = clean_name(text_or(e.name, e.key_name@));
    DeviceView {
        name: if v5 && name_taken(devices, clean) { clean + " (v5.0)"@ } else { clean },
        vendor: text_or(e.vendor, Seq::empty()),
        dll_path: entry_dll_path(e),
        can_iso15765: flag_on(e.flags.iso15765, v5),
        can_iso11898: flag_on(e.flags.can, v5),
        compatible: true,
        bitness: match facts { Some(f) => f.bits(), None => native_bitness(native_64) },
        available: facts is Some,
        unavailable_reason: match facts { Some(_) => None, None => Some("DLL not found"@) },
        api_version: match facts {
            Some(f) => f.version(),
            None => if v5 { "05.00"@ } else { "04.04"@ },
        },
        supported_protocols: supported_protocol_names(e.flags, v5),
    }
}

/// Every listed device is a 32-bit or a 64-bit one.
pub open spec fn all_known_bitness(devices: Seq<DeviceView>) -> bool {
    forall|i: int| 0 <= i < devices.len() ==> (#[trigger] devices[i]).bitness == 32 || devices[i].bitness == 64
}

/// No two listed devices use the same driver library.
pub open spec fn unique_paths(devices: Seq<DeviceView>) -> bool {
    forall|i: int, j: int| 0 <= i < j < devices.len() ==> devices[i].dll_path != devices[j].dll_path
}

fn text_of(v: &Option<String>, default: &str) -> (s: String)
    ensures
        s@ == text_or(*v, default@),
{
    match v {
        Some(s) => s.clone(),
        None => String::from_str(default),
    }
}

/// Whether an entry joins the list (see `admits`).
pub fn admits_entry(devices: &Vec<J2534Device>, entry: &RegistryEntry) -> (b: bool)
    ensures
        b == admits(device_views(devices@), *entry),
{
    proof { reveal_strlit(""); }
    let path = text_of(&entry.function_library, "");
    assert(path@ =~= entry_dll_path(*entry));
    if path.as_str().unicode_len() == 0 {
        return false;
    }
    let ghost dv = device_views(devices@);
    let mut i: usize = 0;
    while i < devices.len()
        invariant
            i <= devices@.len(),
            dv == device_views(devices@),
            path@ == entry_dll_path(*entry),
            forall|j: int| 0 <= j < i ==> dv[j].dll_path != path@,
        decreases devices@.len() - i,
    {
        if str_equals(devices[i].dll_path.as_str(), path.as_str()) {
            assert(dv[i as int].dll_path == path@);
            return false;
        }
        i = i + 1;
    }
    true
}

fn has_name(devices: &Vec<J2534Device>, name: &str) -> (b: bool)
    ensures
        b == name_taken(device_views(devices@), name@),
{
    let ghost dv = device_views(devices@);
    let mut i: usize = 0;
    while i < devices.len()
        invariant
            i <= devices@.len(),
            dv == device_views(devices@),
            forall|j: int| 0 <= j < i ==> dv[j].name != name@,
        decreases devices@.len() - i,
    {
        if str_equals(devices[i].name.as_str(), name) {
            assert(dv[i as int].name == name@);
            return true;
        }
        i = i + 1;
    }
    false
}

/// Adds the device an admitted entry describes.
pub fn push_device(devices: &mut Vec<J2534Device>, entry: &RegistryEntry, v5: bool, facts: Option<LibraryFacts>, native_64: bool)
    requires
        admits(device_views(old(devices)@), *entry),
    ensures
        device_views(final(devices)@) == device_views(old(devices)@).push(
            device_of(device_views(old(devices)@), *entry, v5, facts, native_64)),
        device_of(device_views(old(devices)@), *entry, v5, facts, native_64).bitness == 32
            || device_of(device_views(old(devices)@), *entry, v5, facts, native_64).bitness == 64,
        all_known_bitness(device_views(old(devices)@)) ==> all_known_bitness(device_views(final(devices)@)),
{
    proof { reveal_strlit(""); }
    let raw_name = text_of(&entry.name, entry.key_name.as_str());
    let mut name = clean_device_name(raw_name.as_str());
    if v5 && has_name(devices, name.as_str()) {
        push_str(&mut name, " (v5.0)");
    }
    let ghost fv = facts;
    let (available, unavailable_reason, api_version, bitness) = match facts {
        None => (
            false,
            Some(String::from_str("DLL not found")),
            String::from_str(if v5 { "05.00" } else { "04.04" }),
            if native_64 { 64 } else { 32 },
        ),
        Some(f) => {
            proof { use_type_invariant(&f); }
            let bits = f.bitness;
            (true, None, f.api_version, bits)
        },
    };
    let d = J2534Device {
        name,
        vendor: text_of(&entry.vendor, ""),
        dll_path: text_of(&entry.function_library, ""),
        can_iso15765: is_on(entry.flags.iso15765, v5),
        can_iso11898: is_on(entry.flags.can, v5),
        compatible: true,
        bitness,
        available,
        unavailable_reason,
        api_version,
        supported_protocols: supported_protocols(&entry.flags, v5),
    };
    let ghost before = devices@;
    assert(d@.vendor =~= device_of(device_views(before), *entry, v5, fv, native_64).vendor);
    assert(d@.dll_path =~= device_of(device_views(before), *entry, v5, fv, native_64).dll_path);
    assert(d@.name =~= device_of(device_views(before), *entry, v5, fv, native_64).name);
    assert(d@.unavailable_reason =~= device_of(device_views(before), *entry, v5, fv, native_64).unavailable_reason);
    assert(d@.api_version =~= device_of(device_views(before), *entry, v5, fv, native_64).api_version);
    assert(d@ == device_of(device_views(before), *entry, v5, fv, native_64));
    devices.push(d);
    assert(device_views(devices@) =~= device_views(before).push(d@));
}

/// A listed device keeps its driver library unique: adding an admitted
/// entry never makes two devices share one.
pub proof fn lemma_push_keeps_paths_unique(devices: Seq<DeviceView>, e: RegistryEntry, v5: bool, facts: Option<LibraryFacts>, native_64: bool)
    requires
        unique_paths(devices),
        admits(devices, e),
    ensures
        unique_paths(devices.push(device_of(devices, e, v5, facts, native_64))),
{
    let d = device_of(devices, e, v5, facts, native_64);
    let next = devices.push(d);
    assert forall|i: int, j: int| 0 <= i < j < next.len() implies next[i].dll_path != next[j].dll_path by {
        if j == devices.len() {
            assert(next[i] == devices[i]);
            if devices[i].dll_path == entry_dll_path(e) {
                assert(path_taken(devices, entry_dll_path(e)));
            }
        }
    }
}

/// The API version a driver library implements: "05.00" when it exports
/// PassThruScanForDevices, "04.04" otherwise or when it cannot be loaded.
pub fn api_version_label(loaded: bool, has_scan_for_devices: bool) -> (s: &'static str)
    ensures
        s@ == (if loaded && has_scan_for_devices { "05.00"@ } else { "04.04"@ }),
{
    if loaded && has_scan_for_devices { "05.00" } else { "04.04" }
}

/// The cache key of a library's API version: its path, and the
/// modification time in seconds when known.
pub fn api_cache_key(dll_path: &str, modified_secs: Option<u64>) -> (k: String)
    ensures
        k@ == match modified_secs {
            Some(t) => dll_path@ + "|"@ + crate::text::dec_digits(t as nat),
            None => dll_path@,
        },
{
    let mut k = String::from_str(dll_path);
    match modified_secs {
        Some(t) => {
            push_str(&mut k, "|");
            crate::text::push_decimal(&mut k, t);
        },
        None => {},
    }
    k
}

/// Size of the DOS header read from a library.
pub const DOS_HEADER_LEN: usize = 64;

/// Size of the PE signature and machine field read at the PE offset.
pub const PE_HEADER_LEN: usize = 6;

/// Little-endian value of four bytes.
pub open spec fn le_u32(b0: u8, b1: u8, b2: u8, b3: u8) -> u32 {
    (b0 + b1 * 0x100 + b2 * 0x10000 + b3 * 0x1000000) as u32
}

/// Where the PE header starts, when the DOS header has the "MZ" magic.
pub open spec fn pe_offset_of(dos: Seq<u8>) -> Option<u32> {
    if dos[0] == 0x4D && dos[1] == 0x5A {
        Some(le_u32(dos[0x3C], dos[0x3D], dos[0x3E], dos[0x3F]))
    } else {
        None
    }
}

/// Reads the PE header offset from a DOS header.
pub fn pe_offset(dos: &[u8]) -> (r: Option<u32>)
    requires
        dos@.len() >= DOS_HEADER_LEN,
    ensures
        r == pe_offset_of(dos@),
{
    if dos[0] == 0x4D && dos[1] == 0x5A {
        let v: u64 = dos[0x3C] as u64 + dos[0x3D] as u64 * 0x100 + dos[0x3E] as u64 * 0x10000
            + dos[0x3F] as u64 * 0x1000000;
        Some(v as u32)
    } else {
        None
    }
}

/// The machine field of a PE header, when it has the "PE\0\0" signature.
pub open spec fn pe_machine_of(pe: Seq<u8>) -> Option<u16> {
    if pe[0] == 0x50 && pe[1] == 0x45 && pe[2] == 0 && pe[3] == 0 {
        Some((pe[4] + pe[5] * 0x100) as u16)
    } else {
        None
    }
}

/// Reads the machine field of a PE header.
pub fn pe_machine(pe: &[u8]) -> (r: Option<u16>)
    requires
        pe@.len() >= PE_HEADER_LEN,
    ensures
        r == pe_machine_of(pe@),
{
    if pe[0] == 0x50 && pe[1] == 0x45 && pe[2] == 0 && pe[3] == 0 {
        let v: u32 = pe[4] as u32 + pe[5] as u32 * 0x100;
        Some(v as u16)
    } else {
        None
    }
}

/// Bitness of a machine type: i386 is 32-bit, AMD64 and ARM64 are 64-bit.
pub open spec fn machine_bits_of(machine: u16) -> Option<u8> {
    if machine == 0x014c {
        Some(32)
    } else if machine == 0x8664 || machine == 0xAA64 {
        Some(64)
    } else {
        None
    }
}

/// Bitness of a machine type.
pub fn machine_bits(machine: u16) -> (r: Option<u8>)
    ensures
        r == machine_bits_of(machine),
{
    if machine == 0x014c {
        Some(32)
    } else if machine == 0x8664 || machine == 0xAA64 {
        Some(64)
    } else {
        None
    }
}

/// The message for a machine type of unknown bitness:
/// `unsupported PE machine 0x` and four uppercase hex digits.
pub fn unsupported_machine_error(machine: u16) -> (s: String)
    ensures
        s@ == "unsupported PE machine 0x"@ + hex_pair((machine / 0x100) as u8) + hex_pair((machine % 0x100) as u8),
{
    let mut s = String::from_str("unsupported PE machine 0x");
    push_hex_pair(&mut s, (machine / 0x100) as u8);
    push_hex_pair(&mut s, (machine % 0x100) as u8);
    s
}

/// A PassThruSupport registry key to enumerate, and the registry view it
/// is read in.
#[derive(Debug, Clone, Copy, PartialEq, Eq, Structural)]
pub struct RegistryView {
    /// `true` for the 64-bit view, `false` for the 32-bit one.
    pub wow64_64: bool,
    /// The version 5 key (`PassThruSupport.05.00`) rather than 04.04.
    pub v5: bool,
}

/// The registry keys enumerated, in order: version 04.04 in the 64-bit
/// and 32-bit views, then version 05.00 in both.
pub open spec fn registry_views() -> Seq<RegistryView> {
    seq![
        RegistryView { wow64_64: true, v5: false },
        RegistryView { wow64_64: false, v5: false },
        RegistryView { wow64_64: true, v5: true },
        RegistryView { wow64_64: false, v5: true },
    ]
}

/// Lists the registry keys to enumerate.
pub fn passthru_registry_views() -> (v: Vec<RegistryView>)
    ensures
        v@ == registry_views(),
{
    let v = vec![
        RegistryView { wow64_64: true, v5: false },
        RegistryView { wow64_64: false, v5: false },
        RegistryView { wow64_64: true, v5: true },
        RegistryView { wow64_64: false, v5: true },
    ];
    assert(v@ =~= registry_views());
    v
}

/// The path of a PassThruSupport key under HKEY_LOCAL_MACHINE.
pub fn registry_key_path(view: RegistryView) -> (s: &'static str)
    ensures
        s@ == (if view.v5 { "SOFTWARE\\PassThruSupport.05.00"@ } else { "SOFTWARE\\PassThruSupport.04.04"@ }),
{
    if view.v5 { "SOFTWARE\\PassThruSupport.05.00" } else { "SOFTWARE\\PassThruSupport.04.04" }
}

} // verus!
