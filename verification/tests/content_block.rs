use file_preview::content_block::{ContentBlock, BLOCK_SIZE};

fn pattern(len: usize) -> Vec<u8> {
    (0..len).map(|i| (i % 251) as u8).collect()
}

#[test]
fn block_size_is_4096() {
    assert_eq!(BLOCK_SIZE, 4096);
}

#[test]
fn empty_block_has_no_bytes() {
    let block = ContentBlock::empty();
    assert_eq!(block.len(), 0);
    assert!(block.is_empty());
    assert_eq!(block.as_slice(), &[] as &[u8]);
}

#[test]
fn short_data_is_kept_whole() {
    let block = ContentBlock::from_bytes(b"hello");
    assert_eq!(block.len(), 5);
    assert!(!block.is_empty());
    assert_eq!(block.as_slice(), b"hello");
}

#[test]
fn empty_file_gives_empty_block() {
    let block = ContentBlock::from_read(Some(Vec::new()));
    assert_eq!(block.len(), 0);
    assert!(block.is_empty());
    assert_eq!(block, ContentBlock::empty());
}

#[test]
fn failed_read_gives_empty_block() {
    let block = ContentBlock::from_read(None);
    assert_eq!(block.len(), 0);
    assert_eq!(block, ContentBlock::empty());
}

#[test]
fn one_byte_less_than_a_block_is_kept_whole() {
    let data = pattern(4095);
    let block = ContentBlock::from_read(Some(data.clone()));
    assert_eq!(block.len(), 4095);
    assert_eq!(block.as_slice(), &data[..]);
}

#[test]
fn exactly_one_block_is_kept_whole() {
    let data = pattern(4096);
    let block = ContentBlock::from_bytes(&data);
    assert_eq!(block.len(), 4096);
    assert_eq!(block.as_slice(), &data[..]);
}

#[test]
fn one_byte_more_than_a_block_is_cut() {
    let data = pattern(4097);
    let block = ContentBlock::from_bytes(&data);
    assert_eq!(block.len(), 4096);
    assert_eq!(block.as_slice(), &data[..4096]);
}

#[test]
fn large_file_is_cut_to_one_block() {
    let data = pattern(100_000);
    let block = ContentBlock::from_read(Some(data.clone()));
    assert_eq!(block.len(), 4096);
    assert_eq!(block.as_slice(), &data[..4096]);
    assert_eq!(block.as_slice()[4095], (4095 % 251) as u8);
}

#[test]
fn cutting_twice_changes_nothing() {
    let data = pattern(9000);
    let once = ContentBlock::from_bytes(&data);
    let twice = ContentBlock::from_bytes(once.as_slice());
    assert_eq!(once, twice);
}

#[test]
fn clone_keeps_the_bytes() {
    let block = ContentBlock::from_bytes(b"\x89PNG\r\n\x1a\n");
    let copy = block.clone();
    assert_eq!(copy, block);
    assert_eq!(copy.as_slice(), b"\x89PNG\r\n\x1a\n");
}

#[test]
fn ascii_block_decodes_to_itself() {
    assert_eq!(ContentBlock::from_bytes(b"hello").to_text(), "hello");
}

#[test]
fn empty_block_decodes_to_empty_text() {
    assert_eq!(ContentBlock::empty().to_text(), "");
}

#[test]
fn well_formed_utf8_decodes_to_its_characters() {
    let block = ContentBlock::from_bytes("gr\u{fc}\u{df}e \u{1f496}".as_bytes());
    assert_eq!(block.to_text(), "gr\u{fc}\u{df}e \u{1f496}");
}

#[test]
fn ill_formed_bytes_decode_to_replacement_characters() {
    let block = ContentBlock::from_bytes(b"Hello \xF0\x90\x80World");
    assert_eq!(block.to_text(), "Hello \u{fffd}World");
    let block = ContentBlock::from_bytes(b"\xff\xfe");
    assert_eq!(block.to_text(), "\u{fffd}\u{fffd}");
}

#[test]
fn character_split_by_the_cut_is_replaced() {
    let mut data = vec![b'a'; 4095];
    data.extend_from_slice("\u{e9}tail".as_bytes());
    let block = ContentBlock::from_bytes(&data);
    assert_eq!(block.len(), 4096);
    let mut expected = "a".repeat(4095);
    expected.push('\u{fffd}');
    assert_eq!(block.to_text(), expected);
}
