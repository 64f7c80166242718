use safeflight::sensors::{
    accelerometer_counts, accelerometer_counts_12_bit, gyroscope_counts, OrientationData,
};

#[test]
fn gyroscope_block_is_little_endian() {
    let counts = gyroscope_counts(&[0x34, 0x12, 0xff, 0xff, 0x00, 0x80]);
    assert_eq!(counts, OrientationData { x: 0x1234, y: -1, z: i16::MIN });
}

#[test]
fn accelerometer_block_is_little_endian() {
    let counts = accelerometer_counts(&[0x34, 0x12, 0xff, 0xff, 0x00, 0x80]);
    assert_eq!(counts, OrientationData { x: 0x1234, y: -1, z: i16::MIN });
}

#[test]
fn accelerometer_reads_more_than_six_bytes_from_the_front() {
    let counts = accelerometer_counts(&[1, 0, 2, 0, 3, 0, 9, 9]);
    assert_eq!(counts, OrientationData { x: 1, y: 2, z: 3 });
}

#[test]
fn both_decoders_agree_and_invert_encoding() {
    for value in [i16::MIN, -12345, -1, 0, 1, 255, 256, 12345, i16::MAX] {
        let bytes = value.to_le_bytes();
        let block = [bytes[0], bytes[1], bytes[0], bytes[1], bytes[0], bytes[1]];
        let gyro = gyroscope_counts(&block);
        assert_eq!(gyro, accelerometer_counts(&block));
        assert_eq!(gyro, OrientationData { x: value, y: value, z: value });
    }
}

#[test]
fn twelve_bit_samples_are_right_aligned() {
    let counts = accelerometer_counts_12_bit(&[0xf0, 0xff, 0x10, 0x00, 0x00, 0x80]);
    assert_eq!(counts, OrientationData { x: 4095, y: 1, z: 2048 });
}
