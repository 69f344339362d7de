//! The device information of the Bluetooth LE HID service.

use vstd::prelude::*;

verus! {

/// Who assigned the vendor id of a [`PnPID`].
#[derive(Debug, Clone, Copy, PartialEq, Eq, Structural)]
pub enum VidSource {
    BluetoothSIG,
    UsbIF,
}

impl VidSource {
    /// The value of the vendor id source in the PnP id characteristic.
    pub open spec fn value(self) -> u8 {
        match self {
            VidSource::BluetoothSIG => 1,
            VidSource::UsbIF => 2,
        }
    }
}

impl Default for VidSource {
    /// The vendor id source a PnP id starts with.
    fn default() -> (r: Self)
        ensures
            r == VidSource::BluetoothSIG,
    {
        VidSource::BluetoothSIG
    }
}

/// The PnP id characteristic of the device information service.
#[derive(Debug, Clone, Copy, PartialEq, Eq, Structural)]
pub struct PnPID {
    pub vid_source: VidSource,
    pub vendor_id: u16,
    pub product_id: u16,
    pub product_version: u16,
}

/// The low byte of a 16-bit value.
pub open spec fn low(v: u16) -> u8 {
    (v % 256) as u8
}

/// The high byte of a 16-bit value.
pub open spec fn high(v: u16) -> u8 {
    (v / 256) as u8
}

impl Default for PnPID {
    /// A PnP id from the Bluetooth SIG with every number 0.
    fn default() -> (r: Self)
        ensures
            r == (PnPID { vid_source: VidSource::BluetoothSIG, vendor_id: 0, product_id: 0, product_version: 0 }),
    {
        PnPID { vid_source: VidSource::default(), vendor_id: 0, product_id: 0, product_version: 0 }
    }
}

impl PnPID {

    /// The characteristic's 7 bytes: the vendor id source, then the vendor id, the product id
    /// and the product version, each with its low byte first.
    pub fn pack(&self) -> (r: [u8; 7])
        ensures
            r@ == seq![
                self.vid_source.value(),
                low(self.vendor_id),
                high(self.vendor_id),
                low(self.product_id),
                high(self.product_id),
                low(self.product_version),
                high(self.product_version),
            ],
    {
        let source: u8 = match self.vid_source {
            VidSource::BluetoothSIG => 1,
            VidSource::UsbIF => 2,
        };
        let r = [
            source,
            (self.vendor_id % 256) as u8,
            (self.vendor_id / 256) as u8,
            (self.product_id % 256) as u8,
            (self.product_id / 256) as u8,
            (self.product_version % 256) as u8,
            (self.product_version / 256) as u8,
        ];
        assert(r@ =~= seq![
            self.vid_source.value(),
            low(self.vendor_id),
            high(self.vendor_id),
            low(self.product_id),
            high(self.product_id),
            low(self.product_version),
            high(self.product_version),
        ]);
        r
    }
}

/// The device information service: the handles of its characteristics.
pub struct DeviceInformationService {
    pub model_number_value_handle: u16,
    pub serial_number_value_handle: u16,
    pub firmware_revision_value_handle: u16,
    pub hardware_revision_value_handle: u16,
    pub manufacturer_name_value_handle: u16,
    pub pnp_id_value_handle: u16,
}


/// Packing loses nothing: each 16-bit number is its low byte plus 256 times its high byte, and
/// the two vendor id sources have different values.
pub proof fn lemma_pack_lossless(v: u16)
    ensures
        low(v) + 256 * high(v) == v,
        VidSource::BluetoothSIG.value() != VidSource::UsbIF.value(),
{
}


/// The advertising flags of a keyboard: LE only, general discoverable mode.
pub const ADV_FLAGS_LE_ONLY_GENERAL_DISC_MODE: u8 = 0x06;

/// The advertising data that comes before the keyboard's name: the flags, the 16-bit UUIDs of
/// the HID service (0x1812) and the battery service (0x180F), and the keyboard appearance
/// (0x03C1).
pub open spec fn adv_prefix() -> Seq<u8> {
    seq![
        0x02u8, 0x01, ADV_FLAGS_LE_ONLY_GENERAL_DISC_MODE,
        0x05, 0x03, 0x12, 0x18, 0x0F, 0x18,
        0x03, 0x19, 0xC1, 0x03,
    ]
}

/// The advertising data of a keyboard named `product`: the prefix, then the complete local
/// name field (its length byte, which counts the type byte and wraps around 256, the type
/// 0x09, and the name's bytes).
pub fn advertising_data(product: &[u8]) -> (r: Vec<u8>)
    requires
        product@.len() + 15 <= usize::MAX,
    ensures
        r@ == adv_prefix() + seq![((product@.len() + 1) % 256) as u8, 0x09u8] + product@,
{
    let mut data: Vec<u8> = Vec::new();
    data.push(0x02);
    data.push(0x01);
    data.push(ADV_FLAGS_LE_ONLY_GENERAL_DISC_MODE);
    data.push(0x05);
    data.push(0x03);
    data.push(0x12);
    data.push(0x18);
    data.push(0x0F);
    data.push(0x18);
    data.push(0x03);
    data.push(0x19);
    data.push(0xC1);
    data.push(0x03);
    let len_byte = ((product.len() + 1) % 256) as u8;
    data.push(len_byte);
    data.push(0x09);
    let ghost head = data@;
    assert(head =~= adv_prefix() + seq![((product@.len() + 1) % 256) as u8, 0x09u8]);
    let mut i: usize = 0;
    while i < product.len()
        invariant
            i <= product@.len(),
            data@ == head + product@.subrange(0, i as int),
        decreases product@.len() - i,
    {
        data.push(product[i]);
        i = i + 1;
        assert(data@ =~= head + product@.subrange(0, i as int));
    }
    assert(product@.subrange(0, product@.len() as int) =~= product@);
    data
}

/// The scan response data: the 16-bit UUIDs of the HID service and the battery service.
pub fn scan_data() -> (r: [u8; 6])
    ensures
        r@ == seq![0x05u8, 0x03, 0x12, 0x18, 0x0F, 0x18],
{
    let r = [0x05, 0x03, 0x12, 0x18, 0x0F, 0x18];
    assert(r@ =~= seq![0x05u8, 0x03, 0x12, 0x18, 0x0F, 0x18]);
    r
}

} // verus!
