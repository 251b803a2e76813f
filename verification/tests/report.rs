use plumbob::report::{check_write, rgb_report, ShortWrite, CMD_SET_RGB, REPORT_LEN};
use plumbob::{PID, VID};

#[test]
fn device_ids() {
    assert_eq!(VID, 0x1038);
    assert_eq!(PID, 0x1500);
}

#[test]
fn rgb_report_layout() {
    let buf = rgb_report(0x12, 0x34, 0x56);
    assert_eq!(buf.len(), 1 + REPORT_LEN);
    assert_eq!(buf[0], 0x00);
    assert_eq!(buf[1], CMD_SET_RGB);
    assert_eq!(buf[1], 0x07);
    assert_eq!(buf[2], 0x00);
    assert_eq!(&buf[3..6], &[0x12, 0x34, 0x56]);
    assert!(buf[6..].iter().all(|&b| b == 0));
}

#[test]
fn off_report_is_black() {
    let mut expected = vec![0u8; 33];
    expected[1] = 0x07;
    assert_eq!(rgb_report(0, 0, 0), expected);
}

#[test]
fn write_length_check() {
    assert_eq!(check_write(33, 33), Ok(()));
    assert_eq!(check_write(0, 33), Err(ShortWrite { written: 0, expected: 33 }));
    assert_eq!(check_write(32, 33), Err(ShortWrite { written: 32, expected: 33 }));
}
