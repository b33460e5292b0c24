use picousb::ops::{ACCESS_EXCLUSIVE_EJECT};
use picousb::target::{RebootRequest, TargetID, PICO_STACK_POINTER};
use picousb::wire::{PicobootCmd, PicobootRangeCmd, PicobootReboot2Cmd, PicobootRebootCmd};

#[test]
fn exclusive_access_carries_one_byte() {
    let c = PicobootCmd::exclusive_access(ACCESS_EXCLUSIVE_EJECT);
    assert_eq!(c.cmd_id, 0x01);
    assert_eq!(c.cmd_size, 1);
    assert_eq!(c.transfer_len, 0);
    let mut args = [0u8; 16];
    args[0] = 2;
    assert_eq!(c.args, args);
}

#[test]
fn range_commands_lengths() {
    let e = PicobootCmd::flash_erase(0x1000_0000, 4096);
    assert_eq!((e.cmd_id, e.cmd_size, e.transfer_len), (0x03, 8, 0));
    assert_eq!(e.args, PicobootRangeCmd::ser(0x1000_0000, 4096));
    let w = PicobootCmd::flash_write(0x1000_0100, 256);
    assert_eq!((w.cmd_id, w.cmd_size, w.transfer_len), (0x05, 8, 256));
    let r = PicobootCmd::flash_read(0x1000_0100, 256);
    assert_eq!((r.cmd_id, r.cmd_size, r.transfer_len), (0x84, 8, 256));
    assert_eq!(w.args, r.args);
}

#[test]
fn reboot_commands_per_generation() {
    let legacy = TargetID::Rp2040.reboot_request(500);
    assert_eq!(legacy, RebootRequest::Legacy { pc: 0, sp: PICO_STACK_POINTER, delay: 500 });
    let c = legacy.command();
    assert_eq!((c.cmd_id, c.cmd_size, c.transfer_len), (0x02, 12, 0));
    assert_eq!(c.args, PicobootRebootCmd::ser(0, 0x2004_2000, 500));

    let normal = TargetID::Rp2350.reboot_request(500);
    assert_eq!(normal, RebootRequest::Normal { delay: 500 });
    let c = normal.command();
    assert_eq!((c.cmd_id, c.cmd_size, c.transfer_len), (0x0A, 0x10, 0));
    assert_eq!(c.args, PicobootReboot2Cmd::ser(0, 500, 0, 0));
}

#[test]
fn targets_by_product_id() {
    assert_eq!(TargetID::known(), vec![TargetID::Rp2040, TargetID::Rp2350]);
    assert_eq!(TargetID::from_product_id(0x0003), Some(TargetID::Rp2040));
    assert_eq!(TargetID::from_product_id(0x000f), Some(TargetID::Rp2350));
    assert_eq!(TargetID::from_product_id(0x0004), None);
    assert_eq!(TargetID::Rp2350.product_id(), 0x000f);
    assert_eq!(TargetID::Rp2040.firmware_name(), "fw_blink.uf2");
    assert_eq!(TargetID::Rp2350.firmware_name(), "fw_blink_rp2350.uf2");
    assert_eq!(TargetID::Rp2040.page_size(), 256);
    assert_eq!(TargetID::Rp2040.sector_size(), 4096);
}
