use cmx::profile::{md5checksum, set_profile_id};

#[test]
fn test_md5checksum_preserves_original_data() {
    let mut test_data = vec![0u8; 128];
    test_data[44] = 0x12;
    test_data[45] = 0x34;
    test_data[46] = 0x56;
    test_data[47] = 0x78;
    test_data[64] = 0xAB;
    test_data[65] = 0xCD;
    test_data[66] = 0xEF;
    test_data[67] = 0x01;
    for i in 84..=99 {
        test_data[i] = 0xFF;
    }
    let _original_data = test_data.clone();
    let checksum = md5checksum(&mut test_data);
    assert_eq!(test_data[44], 0x12, "Flags byte 1 not restored");
    assert_eq!(test_data[45], 0x34, "Flags byte 2 not restored");
    assert_eq!(test_data[46], 0x56, "Flags byte 3 not restored");
    assert_eq!(test_data[47], 0x78, "Flags byte 4 not restored");
    assert_eq!(test_data[64], 0xAB, "Rendering intent byte 1 not restored");
    assert_eq!(test_data[65], 0xCD, "Rendering intent byte 2 not restored");
    assert_eq!(test_data[66], 0xEF, "Rendering intent byte 3 not restored");
    assert_eq!(test_data[67], 0x01, "Rendering intent byte 4 not restored");
    for i in 84..=99 {
        assert_eq!(test_data[i], 0, "Profile ID byte {} not cleared", i);
    }
    assert!(!checksum.iter().all(|&x| x == 0), "Checksum should not be all zeros");
    println!("Checksum: {:?}", checksum);
    println!("Test passed: md5checksum preserves original data correctly");
}

#[test]
fn test_md5checksum_minimum_size() {
    let mut test_data = vec![0u8; 128];
    test_data[0] = 0x01;
    let checksum = md5checksum(&mut test_data);
    assert!(!checksum.iter().all(|&x| x == 0), "Checksum should not be all zeros");
    println!("Minimum size test passed");
}

#[test]
fn test_set_profile_id_consistency() {
    let mut test_data1 = vec![0u8; 128];
    let mut test_data2 = vec![0u8; 128];
    test_data1[10] = 0x42;
    test_data2[10] = 0x42;
    let checksum1 = set_profile_id(&mut test_data1);
    let checksum2 = set_profile_id(&mut test_data2);
    assert_eq!(checksum1, checksum2, "Checksums should be identical for identical data");
    assert_eq!(&test_data1[84..=99], &checksum1[..], "Profile ID should match checksum");
    assert_eq!(&test_data2[84..=99], &checksum2[..], "Profile ID should match checksum");
    println!("Consistency test passed");
}

fn hex(b: &[u8]) -> String {
    b.iter().map(|x| format!("{:02x}", x)).collect()
}

#[test]
fn md5checksum_is_the_md5_of_the_bytes_with_fields_zeroed() {
    // 128 zero bytes but byte 10: the flags, intent and ID fields are zero already.
    let mut data = vec![0u8; 128];
    data[10] = 0x42;
    assert_eq!(hex(&md5checksum(&mut data)), "aca1dfea0b0766cf3af795282441a958");
    // Flags, rendering intent and ID do not enter the checksum.
    let mut other = vec![0u8; 128];
    other[10] = 0x42;
    other[44] = 7;
    other[66] = 9;
    other[90] = 0xEE;
    assert_eq!(hex(&md5checksum(&mut other)), "aca1dfea0b0766cf3af795282441a958");
    assert_eq!(other[44], 7);
    assert_eq!(other[66], 9);
    assert_eq!(other[90], 0);
    // Any other byte does.
    let mut zeros = vec![0u8; 128];
    assert_eq!(hex(&md5checksum(&mut zeros)), "f09f35a5637839458e462e6350ecbce4");
}

#[test]
fn set_profile_id_stores_the_checksum() {
    let mut data = vec![0u8; 128];
    data[0] = 1;
    let id = set_profile_id(&mut data);
    assert_eq!(hex(&id), "1d697ed4fbc9fc9a46dbd45d22969a25");
    assert_eq!(&data[84..100], &id[..]);
    assert_eq!(data[0], 1);
}
