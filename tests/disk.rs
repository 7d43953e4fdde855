use kwimy::disk::DiskInfo;

fn disk(name: &str, size: &str, model: &str) -> DiskInfo {
    DiskInfo { name: name.to_string(), size: size.to_string(), model: model.to_string() }
}

#[test]
fn device_path_prefixes_dev() {
    assert_eq!(disk("sda", "500G", "X").device_path(), "/dev/sda");
}

#[test]
fn partition_path_plain_name() {
    assert_eq!(disk("sda", "500G", "").partition_path(1), "/dev/sda1");
    assert_eq!(disk("sda", "500G", "").partition_path(12), "/dev/sda12");
}

#[test]
fn partition_path_after_digit() {
    assert_eq!(disk("nvme0n1", "1T", "").partition_path(2), "/dev/nvme0n1p2");
    assert_eq!(disk("mmcblk0", "32G", "").partition_path(255), "/dev/mmcblk0p255");
    assert_eq!(disk("mmcblk0", "32G", "").partition_path(0), "/dev/mmcblk0p0");
}

#[test]
fn label_with_and_without_model() {
    assert_eq!(disk("sda", "500GB", "X").label(), "sda (500GB) X");
    assert_eq!(disk("sda", "500GB", "").label(), "sda (500GB)");
}
