use vstd::prelude::*;
use vstd::string::*;
use crate::text::{chars_of, push_char, string_from};

verus! {

/// The upper-case hexadecimal digit of `d`.
pub open spec fn hex_digit(d: int) -> char {
    if d < 10 {
        ((d + 48) as u8) as char
    } else {
        ((d + 55) as u8) as char
    }
}

/// `v` as `0x` followed by four upper-case hexadecimal digits.
pub open spec fn hex4(v: u16) -> Seq<char> {
    seq![
        '0',
        'x',
        hex_digit((v as int / 4096) % 16),
        hex_digit((v as int / 256) % 16),
        hex_digit((v as int / 16) % 16),
        hex_digit(v as int % 16),
    ]
}

/// `s` without the colons that end it.
pub open spec fn trim_colons(s: Seq<char>) -> Seq<char>
    decreases s.len(),
{
    if s.len() > 0 && s.last() == ':' {
        trim_colons(s.drop_last())
    } else {
        s
    }
}

fn hex_digit_exec(d: u16) -> (c: char)
    requires
        d < 16,
    ensures
        c == hex_digit(d as int),
{
    if d < 10 {
        ((d + 48) as u8) as char
    } else {
        ((d + 55) as u8) as char
    }
}

/// Writes `v` as `0x` followed by four upper-case hexadecimal digits.
pub fn format_hex4(v: u16) -> (r: String)
    ensures
        r@ == hex4(v),
{
    let mut r = String::new();
    push_char(&mut r, '0');
    push_char(&mut r, 'x');
    push_char(&mut r, hex_digit_exec((v / 4096) % 16));
    push_char(&mut r, hex_digit_exec((v / 256) % 16));
    push_char(&mut r, hex_digit_exec((v / 16) % 16));
    push_char(&mut r, hex_digit_exec(v % 16));
    assert(r@ =~= hex4(v));
    r
}

/// `s` without the colons that end it.
pub fn strip_trailing_colons(s: &str) -> (r: String)
    ensures
        r@ == trim_colons(s@),
{
    let cs = chars_of(s);
    let mut end: usize = cs.len();
    assert(cs@.subrange(0, end as int) =~= cs@);
    while end > 0 && cs[end - 1] == ':'
        invariant
            end <= cs.len(),
            trim_colons(cs@) == trim_colons(cs@.subrange(0, end as int)),
        decreases end,
    {
        assert(cs@.subrange(0, end as int).drop_last() =~= cs@.subrange(0, end - 1));
        end -= 1;
    }
    string_from(&cs, 0, end)
}

/// A connected device that the engine can flash.
#[derive(Debug)]
pub struct UsbDevice {
    pub path: String,
    pub chip: String,
    pub protocol: String,
    pub vendor_id: String,
    pub product_id: String,
    pub bcd: String,
    pub serial_no: String,
}

impl UsbDevice {
    /// The device that the engine describes by these values: the identifiers
    /// are written as `0x` and four upper-case hexadecimal digits, and the
    /// protocol loses the colons that end it.
    pub fn new(path: &str, chip: &str, protocol: &str, vid: u16, pid: u16, bcd: u16, serial_no: &str)
        -> (r: UsbDevice)
        ensures
            r.path@ == path@,
            r.chip@ == chip@,
            r.protocol@ == trim_colons(protocol@),
            r.vendor_id@ == hex4(vid),
            r.product_id@ == hex4(pid),
            r.bcd@ == hex4(bcd),
            r.serial_no@ == serial_no@,
    {
        UsbDevice {
            path: String::from_str(path),
            chip: String::from_str(chip),
            protocol: strip_trailing_colons(protocol),
            vendor_id: format_hex4(vid),
            product_id: format_hex4(pid),
            bcd: format_hex4(bcd),
            serial_no: String::from_str(serial_no),
        }
    }
}

/// The devices that the engine found, in the order in which it reported them.
#[derive(Debug)]
pub struct UsbDevices {
    devices: Vec<UsbDevice>,
}

impl View for UsbDevices {
    type V = Seq<UsbDevice>;

    closed spec fn view(&self) -> Seq<UsbDevice> {
        self.devices@
    }
}

impl UsbDevices {
    /// No devices.
    pub fn empty() -> (r: UsbDevices)
        ensures
            r@ == Seq::<UsbDevice>::empty(),
    {
        UsbDevices { devices: Vec::new() }
    }

    /// Adds a device after those found before it.
    pub fn add(&mut self, d: UsbDevice)
        ensures
            final(self)@ == old(self)@.push(d),
    {
        self.devices.push(d);
    }

    /// The number of devices.
    pub fn len(&self) -> (r: usize)
        ensures
            r == self@.len(),
    {
        self.devices.len()
    }

    /// The devices, in order.
    pub fn iter(&self) -> (r: std::slice::Iter<'_, UsbDevice>)
        ensures
            vstd::std_specs::slice::into_iter_elts(r) == self@,
    {
        broadcast use vstd::std_specs::slice::axiom_spec_slice_iter;
        let r = self.devices.as_slice().iter();
        assert(self.devices@.as_ref().unref() =~= self.devices@);
        r
    }
}

/// The devices as a list, in the order in which they were found.
pub fn get_devices(devices: UsbDevices) -> (r: Vec<UsbDevice>)
    ensures
        r@ == devices@,
{
    devices.devices
}

} // verus!
