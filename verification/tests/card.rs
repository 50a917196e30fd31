use usdhc::block_transfer::DataTransfer;
use usdhc::sd_card::SdCard;

#[test]
fn transfer_descriptor_fields() {
    let bytes = [0xDEu8, 0xAD, 0xBE, 0xEF];
    let t = DataTransfer::new(&bytes, 4, 512);
    assert_eq!(t.data, &bytes);
    assert_eq!(t.length, 4);
    assert_eq!(t.max_block_size, 512);
}

#[test]
fn full_block_counting() {
    let bytes = [0u8; 1200];
    let t = DataTransfer::new(&bytes, 1200, 512);
    assert_eq!(t.full_block_count(), 2);
    let t = DataTransfer::new(&bytes[..512], 512, 512);
    assert_eq!(t.full_block_count(), 1);
    let t = DataTransfer::new(&bytes[..100], 100, 512);
    assert_eq!(t.full_block_count(), 0);
}

#[test]
fn card_stub_operations_succeed() {
    let mut card = SdCard { max_block_size: 512 };
    assert_eq!(card.send_command(), Ok(()));
    assert_eq!(card.is_ready_for_data(), Ok(()));
    let buffer = [0u8; 8];
    assert_eq!(card.read_block(&buffer, 8), Ok(8));
    assert_eq!(card.max_block_size, 512);
}
