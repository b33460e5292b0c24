use picousb::flash::{pages_of, BlockMode, FlashError, FlashOp, FlashPass};
use picousb::target::{RebootRequest, TargetID};

/// Runs a pass against a flash that reads back what was written, and
/// records the operations.
fn run(image: &Vec<u8>, target: TargetID, mode: BlockMode) -> Vec<String> {
    let mut pass = FlashPass::new(image, target, mode).unwrap();
    let mut log = vec![];
    let mut last_write: Vec<u8> = vec![];
    let mut read_back = None;
    loop {
        match pass.advance(read_back.take()).unwrap() {
            FlashOp::Erase { addr, size } => log.push(format!("erase {:#x} {}", addr, size)),
            FlashOp::Write { addr, data } => {
                log.push(format!("write {:#x} {}", addr, data.len()));
                last_write = data;
            }
            FlashOp::Read { addr, size } => {
                log.push(format!("read {:#x} {}", addr, size));
                read_back = Some(last_write.clone());
            }
            FlashOp::Reboot(q) => log.push(format!("reboot {:?}", q)),
            FlashOp::Finished => return log,
        }
    }
}

#[test]
fn blocks_are_padded_and_reassemble() {
    let image: Vec<u8> = (0..600u32).map(|i| (i % 251) as u8).collect();
    let pages = pages_of(&image, 256);
    assert_eq!(pages.len(), 3);
    assert!(pages.iter().all(|p| p.len() == 256));
    let joined: Vec<u8> = pages.concat();
    assert_eq!(&joined[..600], &image[..]);
    assert!(joined[600..].iter().all(|b| *b == 0));
    assert_eq!(pages_of(&vec![], 256).len(), 0);
    assert_eq!(pages_of(&vec![1; 512], 256).len(), 2);
}

#[test]
fn one_page_image() {
    let image = vec![0x5A; 256];
    let log = run(&image, TargetID::Rp2040, BlockMode::Page);
    assert_eq!(
        log,
        vec![
            "erase 0x10000000 4096".to_string(),
            "write 0x10000000 256".to_string(),
            "read 0x10000000 256".to_string(),
            format!("reboot {:?}", RebootRequest::Legacy { pc: 0, sp: 0x20042000, delay: 500 }),
        ]
    );
}

#[test]
fn image_one_page_into_second_sector() {
    let image = vec![0x11; 4096 + 100];
    let log = run(&image, TargetID::Rp2350, BlockMode::Page);
    let erases: Vec<&String> = log.iter().filter(|l| l.starts_with("erase")).collect();
    assert_eq!(erases, vec!["erase 0x10000000 4096", "erase 0x10001000 4096"]);
    let writes = log.iter().filter(|l| l.starts_with("write")).count();
    let reads = log.iter().filter(|l| l.starts_with("read")).count();
    assert_eq!(writes, 17);
    assert_eq!(reads, 17);
    assert_eq!(log[log.len() - 4], "erase 0x10001000 4096");
    assert_eq!(log[log.len() - 3], "write 0x10001000 256");
    assert_eq!(log.last().unwrap(), &format!("reboot {:?}", RebootRequest::Normal { delay: 500 }));
}

#[test]
fn last_block_is_zero_padded() {
    let image = vec![0x11; 300];
    let mut pass = FlashPass::new(&image, TargetID::Rp2040, BlockMode::Page).unwrap();
    assert!(matches!(pass.advance(None), Ok(FlashOp::Erase { .. })));
    pass.advance(None).unwrap();
    pass.advance(None).unwrap();
    let full = vec![0x11; 256];
    match pass.advance(Some(full)).unwrap() {
        FlashOp::Write { addr, data } => {
            assert_eq!(addr, 0x1000_0100);
            assert_eq!(&data[..44], &[0x11; 44][..]);
            assert!(data[44..].iter().all(|b| *b == 0));
            assert_eq!(data.len(), 256);
        }
        other => panic!("unexpected {:?}", other),
    }
}

#[test]
fn sector_mode_erases_each_sector_once() {
    let image = vec![0x22; 3 * 4096];
    let log = run(&image, TargetID::Rp2040, BlockMode::Sector);
    let erases: Vec<&String> = log.iter().filter(|l| l.starts_with("erase")).collect();
    assert_eq!(erases, vec!["erase 0x10000000 4096", "erase 0x10001000 4096", "erase 0x10002000 4096"]);
    assert!(log.contains(&"write 0x10002000 4096".to_string()));
}

#[test]
fn mismatched_read_back_fails_the_pass() {
    let image = vec![0x33; 256];
    let mut pass = FlashPass::new(&image, TargetID::Rp2040, BlockMode::Page).unwrap();
    pass.advance(None).unwrap();
    pass.advance(None).unwrap();
    pass.advance(None).unwrap();
    let mut wrong = vec![0x33; 256];
    wrong[17] = 0;
    assert_eq!(pass.advance(Some(wrong)).unwrap_err(), FlashError::VerifyFailed { addr: 0x1000_0000 });
    assert_eq!(pass.advance(None).unwrap_err(), FlashError::UnexpectedEvent);
}

#[test]
fn missing_read_back_is_refused() {
    let image = vec![0x33; 256];
    let mut pass = FlashPass::new(&image, TargetID::Rp2040, BlockMode::Page).unwrap();
    pass.advance(None).unwrap();
    pass.advance(None).unwrap();
    pass.advance(None).unwrap();
    assert_eq!(pass.advance(None).unwrap_err(), FlashError::UnexpectedEvent);
}

#[test]
fn empty_image_only_reboots() {
    let log = run(&vec![], TargetID::Rp2040, BlockMode::Page);
    assert_eq!(log.len(), 1);
    assert!(log[0].starts_with("reboot"));
}
