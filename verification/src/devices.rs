use vstd::prelude::*;
use vstd::string::*;

use vstd::arithmetic::div_mod::lemma_fundamental_div_mod;

use crate::error::AppError;
use crate::strutil::{
    chars_contain_str, chars_eq_str, chars_of, lower_chars, spec_contains_seq, spec_lower,
    string_of_chars,
};
use crate::types::{AudioRouteConfig, DeviceDirection, DeviceInfo, DeviceList};

verus! {

/// The views of a sequence of strings.
pub open spec fn string_views(ss: Seq<String>) -> Seq<Seq<char>> {
    ss.map_values(|s: String| s@)
}

/// The character for one decimal digit.
pub open spec fn spec_digit_char(d: int) -> char {
    ((48 + d) as u8) as char
}

/// The decimal rendering of a number, most significant digit first.
pub open spec fn spec_dec(n: nat) -> Seq<char>
    decreases n,
{
    if n < 10 {
        seq![spec_digit_char(n as int)]
    } else {
        spec_dec(n / 10).push(spec_digit_char((n % 10) as int))
    }
}

/// Renders a number in decimal.
fn dec_chars(n: usize) -> (r: Vec<char>)
    ensures
        r@ == spec_dec(n as nat),
    decreases n,
{
    if n < 10 {
        let mut r: Vec<char> = Vec::new();
        r.push(((48 + n as u8)) as char);
        proof {
            assert(r@ =~= seq![spec_digit_char(n as int)]);
        }
        r
    } else {
        let mut r = dec_chars(n / 10);
        r.push(((48 + (n % 10) as u8)) as char);
        r
    }
}

/// Whether the character is a decimal digit.
pub open spec fn spec_is_digit(c: char) -> bool {
    '0' <= c && c <= '9'
}

/// The value of one digit character.
pub open spec fn spec_digit_val(c: char) -> int {
    c as u32 - 48
}

/// The value of a digit string, most significant digit first.
pub open spec fn spec_digits_value(s: Seq<char>) -> int
    decreases s.len(),
{
    if s.len() == 0 {
        0
    } else {
        spec_digits_value(s.drop_last()) * 10 + spec_digit_val(s.last())
    }
}

/// Whether the string is one or more decimal digits and nothing else.
pub open spec fn spec_all_digits(s: Seq<char>) -> bool {
    s.len() > 0 && forall|i: int| 0 <= i < s.len() ==> spec_is_digit(#[trigger] s[i])
}

/// A digit string's value is never negative.
proof fn lemma_digits_value_nonneg(s: Seq<char>)
    requires
        forall|i: int| 0 <= i < s.len() ==> spec_is_digit(#[trigger] s[i]),
    ensures
        spec_digits_value(s) >= 0,
    decreases s.len(),
{
    if s.len() > 0 {
        lemma_digits_value_nonneg(s.drop_last());
        assert(spec_digit_val(s.last()) >= 0);
        assert(spec_digits_value(s.drop_last()) * 10 >= 0) by (nonlinear_arith)
            requires
                spec_digits_value(s.drop_last()) >= 0,
        ;
    }
}

/// Extending a digit string never shrinks its value.
proof fn lemma_digits_prefix_le(s: Seq<char>, i: int)
    requires
        forall|j: int| 0 <= j < s.len() ==> spec_is_digit(#[trigger] s[j]),
        0 <= i <= s.len(),
    ensures
        spec_digits_value(s.take(i)) <= spec_digits_value(s),
    decreases s.len() - i,
{
    if i < s.len() {
        lemma_digits_prefix_le(s, i + 1);
        let t = s.take(i + 1);
        assert(t.drop_last() =~= s.take(i));
        assert(t.last() == s[i]);
        lemma_digits_value_nonneg(s.take(i));
        assert(spec_digits_value(s.take(i)) * 10 >= spec_digits_value(s.take(i)))
            by (nonlinear_arith)
            requires
                spec_digits_value(s.take(i)) >= 0,
        ;
        assert(spec_digit_val(s[i]) >= 0);
    } else {
        assert(s.take(i) =~= s);
    }
}

/// Parses a digit string into a machine word: `None` on a non-digit, an
/// empty string, or a value past the word's range.
pub fn parse_usize(digits: &Vec<char>) -> (r: Option<usize>)
    ensures
        match r {
            Some(v) => spec_all_digits(digits@) && v == spec_digits_value(digits@),
            None => !(spec_all_digits(digits@) && spec_digits_value(digits@) <= usize::MAX),
        },
{
    let n = digits.len();
    if n == 0 {
        return None;
    }
    let mut value: usize = 0;
    let mut i: usize = 0;
    while i < n
        invariant
            i <= n,
            n == digits@.len(),
            forall|j: int| 0 <= j < i ==> spec_is_digit(#[trigger] digits@[j]),
            value == spec_digits_value(digits@.take(i as int)),
        decreases n - i,
    {
        let c = digits[i];
        if !('0' <= c && c <= '9') {
            return None;
        }
        let d: usize = (c as u8 - 48) as usize;
        proof {
            assert(digits@.take(i + 1).drop_last() =~= digits@.take(i as int));
            assert(digits@.take(i + 1).last() == digits@[i as int]);
        }
        if value > (usize::MAX - d) / 10 {
            proof {
                assert(spec_digits_value(digits@.take(i + 1)) == value * 10 + d);
                assert(value * 10 + d > usize::MAX) by (nonlinear_arith)
                    requires
                        value > (usize::MAX - d) / 10,
                        0 <= d <= 9,
                        value >= 0,
                ;
                if spec_all_digits(digits@) {
                    lemma_digits_prefix_le(digits@, i + 1);
                }
            }
            return None;
        }
        value = value * 10 + d;
        i = i + 1;
    }
    proof {
        assert(digits@.take(n as int) =~= digits@);
    }
    Some(value)
}

/// The position of the first occurrence of a character, if any.
pub open spec fn spec_find_char(s: Seq<char>, c: char) -> Option<int>
    decreases s.len(),
{
    if s.len() == 0 {
        None
    } else if s[0] == c {
        Some(0)
    } else {
        match spec_find_char(s.drop_first(), c) {
            Some(j) => Some(j + 1),
            None => None,
        }
    }
}

/// A position whose prefix is free of the character is the first
/// occurrence.
proof fn lemma_find_char_at(s: Seq<char>, c: char, k: int)
    requires
        0 <= k < s.len(),
        s[k] == c,
        forall|j: int| 0 <= j < k ==> s[j] != c,
    ensures
        spec_find_char(s, c) == Some(k),
    decreases k,
{
    if k > 0 {
        lemma_find_char_at(s.drop_first(), c, k - 1);
    }
}

/// A sequence free of the character has no first occurrence.
proof fn lemma_find_char_none(s: Seq<char>, c: char)
    requires
        forall|j: int| 0 <= j < s.len() ==> s[j] != c,
    ensures
        spec_find_char(s, c) is None,
    decreases s.len(),
{
    if s.len() > 0 {
        lemma_find_char_none(s.drop_first(), c);
    }
}

/// Finds the first occurrence of a character.
fn find_char(v: &Vec<char>, c: char) -> (r: Option<usize>)
    ensures
        match r {
            Some(k) => spec_find_char(v@, c) == Some(k as int) && k < v@.len() && v@[k as int]
                == c,
            None => spec_find_char(v@, c) is None,
        },
{
    let n = v.len();
    let mut i: usize = 0;
    while i < n
        invariant
            i <= n,
            n == v@.len(),
            forall|j: int| 0 <= j < i ==> v@[j] != c,
        decreases n - i,
    {
        if v[i] == c {
            proof {
                lemma_find_char_at(v@, c, i as int);
            }
            return Some(i);
        }
        i = i + 1;
    }
    proof {
        lemma_find_char_none(v@, c);
    }
    None
}

/// What a well-formed device identifier carries: the enumeration index
/// between the first two `#` separators, and the device name after them.
pub ghost struct ParsedDeviceId {
    pub index: int,
    pub name: Seq<char>,
}

/// The parse of a device identifier `dir#index#name`: the text between the
/// first and second `#` must be a digit string whose value fits a machine
/// word; everything after the second `#` (further `#` included) is the
/// name.
pub open spec fn spec_parse_device_id(s: Seq<char>) -> Option<ParsedDeviceId> {
    match spec_find_char(s, '#') {
        None => None,
        Some(i1) => {
            let rest = s.skip(i1 + 1);
            match spec_find_char(rest, '#') {
                None => None,
                Some(k) => {
                    let digits = rest.take(k);
                    if spec_all_digits(digits) && spec_digits_value(digits) <= usize::MAX {
                        Some(
                            ParsedDeviceId {
                                index: spec_digits_value(digits),
                                name: rest.skip(k + 1),
                            },
                        )
                    } else {
                        None
                    }
                },
            }
        },
    }
}

/// Copies a sub-range of a character vector.
fn subrange_chars(v: &Vec<char>, from: usize, to: usize) -> (r: Vec<char>)
    requires
        from <= to <= v@.len(),
    ensures
        r@ == v@.subrange(from as int, to as int),
{
    let mut r: Vec<char> = Vec::new();
    let mut i: usize = from;
    while i < to
        invariant
            from <= i <= to <= v@.len(),
            r@ == v@.subrange(from as int, i as int),
        decreases to - i,
    {
        r.push(v[i]);
        proof {
            assert(r@ =~= v@.subrange(from as int, i + 1));
        }
        i = i + 1;
    }
    r
}

/// Parses a device identifier into its enumeration index and device name,
/// or reports the identifier as malformed.
pub fn parse_device_id(id: &str) -> (r: Result<(usize, Vec<char>), AppError>)
    ensures
        match spec_parse_device_id(id@) {
            Some(p) => r matches Ok((idx, name)) && idx == p.index && name@ == p.name,
            None => r matches Err(AppError::InvalidArgument(m)) && m@ == "malformed device id: "@
                + id@,
        },
{
    let chars = chars_of(id);
    match find_char(&chars, '#') {
        None => {
            let mut m = String::from_str("malformed device id: ");
            m.append(id);
            Err(AppError::InvalidArgument(m))
        },
        Some(i1) => {
            let rest = subrange_chars(&chars, i1 + 1, chars.len());
            proof {
                assert(rest@ =~= id@.skip(i1 + 1));
            }
            match find_char(&rest, '#') {
                None => {
                    let mut m = String::from_str("malformed device id: ");
                    m.append(id);
                    Err(AppError::InvalidArgument(m))
                },
                Some(k) => {
                    let digits = subrange_chars(&rest, 0, k);
                    proof {
                        assert(digits@ =~= id@.skip(i1 + 1).take(k as int));
                    }
                    match parse_usize(&digits) {
                        Some(idx) => {
                            let name = subrange_chars(&rest, k + 1, rest.len());
                            proof {
                                assert(name@ =~= id@.skip(i1 + 1).skip(k + 1));
                            }
                            Ok((idx, name))
                        },
                        None => {
                            let mut m = String::from_str("malformed device id: ");
                            m.append(id);
                            Err(AppError::InvalidArgument(m))
                        },
                    }
                },
            }
        },
    }
}

/// A decimal rendering is a digit string and reads back to its number.
proof fn lemma_dec_value(n: nat)
    ensures
        spec_dec(n).len() >= 1,
        spec_all_digits(spec_dec(n)),
        spec_digits_value(spec_dec(n)) == n,
    decreases n,
{
    if n < 10 {
        let s = spec_dec(n);
        assert(s == seq![spec_digit_char(n as int)]);
        assert(s.len() == 1);
        assert(s.drop_last() =~= Seq::<char>::empty());
        assert(spec_digits_value(Seq::<char>::empty()) == 0);
        assert(spec_digits_value(s.drop_last()) == 0);
        assert(s.last() == spec_digit_char(n as int));
        assert(((48 + n as int) as u8) as char as u32 == 48 + n);
        assert(spec_digit_val(s.last()) == n);
        assert(spec_digits_value(s) == n);
        assert(spec_is_digit(s[0]));
    } else {
        lemma_dec_value(n / 10);
        let s = spec_dec(n);
        let front = spec_dec(n / 10);
        assert(s.drop_last() =~= front);
        assert(((48 + (n % 10) as int) as u8) as char as u32 == 48 + n % 10);
        assert(spec_digits_value(s) == spec_digits_value(front) * 10 + n % 10);
        lemma_fundamental_div_mod(n as int, 10);
        assert((n as int / 10) * 10 == 10 * (n as int / 10)) by (nonlinear_arith);
        assert(forall|i: int|
            0 <= i < s.len() ==> spec_is_digit(#[trigger] s[i]) == (if i < front.len() {
                spec_is_digit(front[i])
            } else {
                spec_is_digit(s.last())
            }));
    }
}

/// Law: an identifier built from an index and a name parses back to
/// exactly that index and that name, whatever characters the name holds:
/// the embedded name survives further separators of its own.
pub proof fn lemma_device_id_round_trip(direction: DeviceDirection, index: nat, name: Seq<char>)
    requires
        index <= usize::MAX,
    ensures
        spec_parse_device_id(spec_make_device_id(direction, index, name)) == Some(
            ParsedDeviceId { index: index as int, name },
        ),
{
    reveal_strlit("in");
    reveal_strlit("out");
    reveal_strlit("#");
    let tag = spec_direction_tag(direction);
    let dec = spec_dec(index);
    let s = spec_make_device_id(direction, index, name);
    lemma_dec_value(index);
    assert(s.len() == tag.len() + 1 + dec.len() + 1 + name.len());
    assert forall|j: int| 0 <= j < tag.len() implies s[j] != '#' by {
        assert(s[j] == tag[j]);
        match direction {
            DeviceDirection::Input => {
                assert(tag[j] == 'i' || tag[j] == 'n');
            },
            DeviceDirection::Output => {
                assert(tag[j] == 'o' || tag[j] == 'u' || tag[j] == 't');
            },
        }
    }
    assert(s[tag.len() as int] == '#');
    lemma_find_char_at(s, '#', tag.len() as int);
    let rest = s.skip(tag.len() as int + 1);
    assert(rest =~= dec + "#"@ + name);
    assert forall|j: int| 0 <= j < dec.len() implies rest[j] != '#' by {
        assert(rest[j] == dec[j]);
        assert(spec_is_digit(dec[j]));
    }
    assert(rest[dec.len() as int] == '#');
    lemma_find_char_at(rest, '#', dec.len() as int);
    assert(rest.take(dec.len() as int) =~= dec);
    assert(rest.skip(dec.len() as int + 1) =~= name);
}

/// The name substrings that mark a device as a virtual-cable candidate.
pub open spec fn spec_is_virtual_candidate(name: Seq<char>) -> bool {
    let lower = spec_lower(name);
    spec_contains_seq(lower, "cable"@) || spec_contains_seq(lower, "vb-audio"@)
        || spec_contains_seq(lower, "virtual"@) || spec_contains_seq(lower, "voiceemeeter"@)
}

/// Decides whether a device name looks like a virtual audio endpoint.
pub fn is_virtual_candidate(name: &str) -> (r: bool)
    ensures
        r == spec_is_virtual_candidate(name@),
{
    let chars = chars_of(name);
    let lower = lower_chars(&chars);
    chars_contain_str(&lower, "cable") || chars_contain_str(&lower, "vb-audio")
        || chars_contain_str(&lower, "virtual") || chars_contain_str(&lower, "voiceemeeter")
}

/// The directional tag a device identifier starts with.
pub open spec fn spec_direction_tag(direction: DeviceDirection) -> Seq<char> {
    match direction {
        DeviceDirection::Input => "in"@,
        DeviceDirection::Output => "out"@,
    }
}

/// A device identifier: direction tag, enumeration index and device name,
/// joined with `#`. The name keeps the id resolvable when indices drift.
pub open spec fn spec_make_device_id(
    direction: DeviceDirection,
    index: nat,
    name: Seq<char>,
) -> Seq<char> {
    spec_direction_tag(direction) + "#"@ + spec_dec(index) + "#"@ + name
}

/// Builds the identifier of one enumerated device.
pub fn make_device_id(direction: &DeviceDirection, index: usize, name: &str) -> (r: String)
    ensures
        r@ == spec_make_device_id(*direction, index as nat, name@),
{
    let mut m = match direction {
        DeviceDirection::Input => String::from_str("in"),
        DeviceDirection::Output => String::from_str("out"),
    };
    m.append("#");
    let digits = string_of_chars(&dec_chars(index));
    m.append(digits.as_str());
    m.append("#");
    m.append(name);
    m
}

/// The first list position holding the wanted name, if any.
pub open spec fn spec_first_name_match(names: Seq<Seq<char>>, name: Seq<char>) -> Option<int>
    decreases names.len(),
{
    if names.len() == 0 {
        None
    } else if names[0] == name {
        Some(0)
    } else {
        match spec_first_name_match(names.drop_first(), name) {
            Some(j) => Some(j + 1),
            None => None,
        }
    }
}

/// Which enumerated device an identifier resolves to: the remembered index
/// when the name still matches there, otherwise the first device with that
/// name, otherwise none.
pub open spec fn spec_resolve_index(index: int, name: Seq<char>, names: Seq<Seq<char>>) -> Option<
    int,
> {
    if 0 <= index < names.len() && names[index] == name {
        Some(index)
    } else {
        spec_first_name_match(names, name)
    }
}

/// A position whose prefix is free of the name is the first match.
proof fn lemma_first_name_match_at(names: Seq<Seq<char>>, name: Seq<char>, k: int)
    requires
        0 <= k < names.len(),
        names[k] == name,
        forall|j: int| 0 <= j < k ==> names[j] != name,
    ensures
        spec_first_name_match(names, name) == Some(k),
    decreases k,
{
    if k > 0 {
        lemma_first_name_match_at(names.drop_first(), name, k - 1);
    }
}

/// A list free of the name has no match.
proof fn lemma_first_name_match_none(names: Seq<Seq<char>>, name: Seq<char>)
    requires
        forall|j: int| 0 <= j < names.len() ==> names[j] != name,
    ensures
        spec_first_name_match(names, name) is None,
    decreases names.len(),
{
    if names.len() > 0 {
        lemma_first_name_match_none(names.drop_first(), name);
    }
}

/// Resolves a parsed device identifier against the current enumeration:
/// the remembered index wins while its name still matches, a name search
/// covers index drift, and a missing device is reported by name.
pub fn resolve_in_list(index: usize, name: &Vec<char>, names: &Vec<String>) -> (r: Result<
    usize,
    AppError,
>)
    ensures
        match spec_resolve_index(index as int, name@, string_views(names@)) {
            Some(k) => r matches Ok(j) && j == k,
            None => r matches Err(AppError::DeviceNotFound(m)) && m@ == name@,
        },
{
    let ghost views = string_views(names@);
    if index < names.len() && chars_eq_str(name, names[index].as_str()) {
        proof {
            assert(views[index as int] == names@[index as int]@);
        }
        return Ok(index);
    }
    proof {
        if 0 <= index < views.len() {
            assert(views[index as int] == names@[index as int]@);
        }
    }
    let n = names.len();
    let mut j: usize = 0;
    while j < n
        invariant
            j <= n,
            n == names@.len(),
            views == string_views(names@),
            spec_resolve_index(index as int, name@, views) == spec_first_name_match(views, name@),
            forall|i: int| 0 <= i < j ==> views[i] != name@,
        decreases n - j,
    {
        proof {
            assert(views[j as int] == names@[j as int]@);
        }
        if chars_eq_str(name, names[j].as_str()) {
            proof {
                lemma_first_name_match_at(views, name@, j as int);
            }
            return Ok(j);
        }
        j = j + 1;
    }
    proof {
        lemma_first_name_match_none(views, name@);
    }
    Err(AppError::DeviceNotFound(string_of_chars(name)))
}

/// What one entry of the built device list holds for an enumerated name.
pub open spec fn spec_device_entry(
    d: DeviceInfo,
    direction: DeviceDirection,
    index: int,
    name: Seq<char>,
    default_name: Seq<char>,
) -> bool {
    &&& d.id@ == spec_make_device_id(direction, index as nat, name)
    &&& d.name@ == name
    &&& d.direction == direction
    &&& d.is_default == (name == default_name)
    &&& d.is_virtual_candidate == spec_is_virtual_candidate(name)
}

/// Builds the device entries for one direction.
fn build_entries(direction: DeviceDirection, names: &Vec<String>, default_name: &str) -> (r: Vec<
    DeviceInfo,
>)
    ensures
        r@.len() == names@.len(),
        forall|i: int|
            0 <= i < names@.len() ==> spec_device_entry(
                #[trigger] r@[i],
                direction,
                i,
                names@[i]@,
                default_name@,
            ),
{
    let mut r: Vec<DeviceInfo> = Vec::new();
    let n = names.len();
    let mut i: usize = 0;
    while i < n
        invariant
            i <= n,
            n == names@.len(),
            r@.len() == i,
            forall|k: int|
                0 <= k < i ==> spec_device_entry(
                    #[trigger] r@[k],
                    direction,
                    k,
                    names@[k]@,
                    default_name@,
                ),
        decreases n - i,
    {
        let name = &names[i];
        let name_chars = chars_of(name.as_str());
        let dir = match direction {
            DeviceDirection::Input => DeviceDirection::Input,
            DeviceDirection::Output => DeviceDirection::Output,
        };
        let entry = DeviceInfo {
            id: make_device_id(&dir, i, name.as_str()),
            name: name.clone(),
            direction: dir,
            is_default: chars_eq_str(&name_chars, default_name),
            is_virtual_candidate: is_virtual_candidate(name.as_str()),
        };
        r.push(entry);
        i = i + 1;
    }
    r
}

/// Builds the device directory of one enumeration session: each device gets
/// a stable identifier embedding its index and name, a default flag from
/// comparing against the host's default device name, and the
/// virtual-endpoint heuristic flag.
pub fn list_devices(
    input_names: &Vec<String>,
    output_names: &Vec<String>,
    default_input_name: &str,
    default_output_name: &str,
) -> (r: DeviceList)
    ensures
        r.inputs@.len() == input_names@.len(),
        forall|i: int|
            0 <= i < input_names@.len() ==> spec_device_entry(
                #[trigger] r.inputs@[i],
                DeviceDirection::Input,
                i,
                input_names@[i]@,
                default_input_name@,
            ),
        r.outputs@.len() == output_names@.len(),
        forall|i: int|
            0 <= i < output_names@.len() ==> spec_device_entry(
                #[trigger] r.outputs@[i],
                DeviceDirection::Output,
                i,
                output_names@[i]@,
                default_output_name@,
            ),
{
    DeviceList {
        inputs: build_entries(DeviceDirection::Input, input_names, default_input_name),
        outputs: build_entries(DeviceDirection::Output, output_names, default_output_name),
    }
}

/// Whether some entry of the list carries exactly this identifier.
pub open spec fn spec_has_device_id(list: Seq<DeviceInfo>, id: Seq<char>) -> bool {
    exists|i: int| 0 <= i < list.len() && (#[trigger] list[i].id)@ == id
}

/// Looks for an entry carrying exactly this identifier.
fn has_device_id(list: &Vec<DeviceInfo>, id: &str) -> (r: bool)
    ensures
        r == spec_has_device_id(list@, id@),
{
    let id_chars = chars_of(id);
    let n = list.len();
    let mut i: usize = 0;
    while i < n
        invariant
            i <= n,
            n == list@.len(),
            id_chars@ == id@,
            forall|j: int| 0 <= j < i ==> (#[trigger] list@[j].id)@ != id@,
        decreases n - i,
    {
        if chars_eq_str(&id_chars, list[i].id.as_str()) {
            return true;
        }
        i = i + 1;
    }
    false
}

/// Checks a remembered route against the live device directory: an empty
/// route passes (nothing was chosen yet); otherwise both remembered
/// identifiers must still be present, and a stale one is reported.
pub fn validate_route(route: &AudioRouteConfig, devices: &DeviceList) -> (r: Result<(), AppError>)
    ensures
        ({
            let in_id = route.input_device_id@;
            let out_id = route.bridge_output_device_id@;
            if in_id.len() == 0 && out_id.len() == 0 {
                r is Ok
            } else if spec_has_device_id(devices.inputs@, in_id) && spec_has_device_id(
                devices.outputs@,
                out_id,
            ) {
                r is Ok
            } else {
                r matches Err(AppError::DeviceNotFound(m)) && m@
                    == "a configured audio device is no longer present"@
            }
        }),
{
    if route.input_device_id.as_str().unicode_len() == 0 && route.bridge_output_device_id.as_str().unicode_len() == 0 {
        return Ok(());
    }
    let in_ok = has_device_id(&devices.inputs, route.input_device_id.as_str());
    let out_ok = has_device_id(&devices.outputs, route.bridge_output_device_id.as_str());
    if in_ok && out_ok {
        Ok(())
    } else {
        Err(
            AppError::DeviceNotFound(
                String::from_str("a configured audio device is no longer present"),
            ),
        )
    }
}

/// Merges a newly chosen route over the remembered one: an empty bridge
/// output in the new route keeps the remembered endpoint, so that picking
/// a new input never silently drops the virtual-cable side.
pub fn merge_route(new_route: AudioRouteConfig, old_route: &AudioRouteConfig) -> (r:
    AudioRouteConfig)
    ensures
        r.input_device_id@ == new_route.input_device_id@,
        r.bridge_output_device_id@ == if new_route.bridge_output_device_id@.len() == 0 {
            old_route.bridge_output_device_id@
        } else {
            new_route.bridge_output_device_id@
        },
{
    let bridge_output_device_id = if new_route.bridge_output_device_id.as_str().unicode_len()
        == 0 {
        old_route.bridge_output_device_id.clone()
    } else {
        new_route.bridge_output_device_id
    };
    AudioRouteConfig { input_device_id: new_route.input_device_id, bridge_output_device_id }
}

/// Checks that both ends of the route were chosen before an engine start:
/// an empty identifier on either side is an invalid-argument error.
pub fn check_route_selected(route: &AudioRouteConfig) -> (r: Result<(), AppError>)
    ensures
        if route.input_device_id@.len() > 0 && route.bridge_output_device_id@.len() > 0 {
            r is Ok
        } else {
            r matches Err(AppError::InvalidArgument(m)) && m@
                == "select an input device and a bridge output device first"@
        },
{
    if route.input_device_id.as_str().unicode_len() > 0 && route.bridge_output_device_id.as_str().unicode_len() > 0 {
        Ok(())
    } else {
        Err(
            AppError::InvalidArgument(
                String::from_str("select an input device and a bridge output device first"),
            ),
        )
    }
}

} // verus!
