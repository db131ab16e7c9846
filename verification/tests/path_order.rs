use recpart::inventory::{drop_repeats, finish_inventory, sort_by_path, DiskInventory};
use recpart::paths::{order_paths, order_texts, path_components, Order, PathPart};
use std::cmp::Ordering;
use std::path::{Component, Path};

const PATHS: [&str; 40] = [
    "",
    "/",
    "//",
    ".",
    "..",
    "./",
    "/.",
    "/..",
    "a",
    "a/",
    "a/.",
    "a/..",
    "./a",
    "../a",
    ".//a",
    "a/./b",
    "a//b",
    "a/b",
    "a/b/",
    "a-b",
    "a/b-c",
    "/dev/sda",
    "/dev//sda",
    "/dev/sda/",
    "/dev/./sda",
    "/dev/sda1",
    "/dev/sdb",
    "/dev/sd",
    "/dev/a/b",
    "/dev/a-b",
    "/dev/a b",
    "/dev/mapper/vg-root",
    "/dev/nvme0n1",
    "/dev/loop10",
    "/dev/loop2",
    "/dev/é",
    "/dev/z",
    "/dev/...",
    "/dev/.hidden",
    "dev/sda",
];

fn as_order(ordering: Ordering) -> Order {
    match ordering {
        Ordering::Less => Order::Less,
        Ordering::Equal => Order::Equal,
        Ordering::Greater => Order::Greater,
    }
}

#[test]
fn components_are_those_of_the_standard_library() {
    for path in PATHS {
        let ours = path_components(path)
            .into_iter()
            .map(|part| match part {
                PathPart::Root => "<root>".to_string(),
                PathPart::Current => "<cur>".to_string(),
                PathPart::Parent => "<parent>".to_string(),
                PathPart::Normal(name) => name,
            })
            .collect::<Vec<_>>();
        let theirs = Path::new(path)
            .components()
            .map(|part| match part {
                Component::RootDir => "<root>".to_string(),
                Component::CurDir => "<cur>".to_string(),
                Component::ParentDir => "<parent>".to_string(),
                Component::Normal(name) => name.to_string_lossy().to_string(),
                Component::Prefix(_) => "<prefix>".to_string(),
            })
            .collect::<Vec<_>>();
        assert_eq!(ours, theirs, "components of {path:?}");
    }
}

#[test]
fn paths_are_ordered_as_the_standard_library_orders_them() {
    for a in PATHS {
        for b in PATHS {
            assert_eq!(
                order_paths(a, b),
                as_order(Path::new(a).cmp(Path::new(b))),
                "order of {a:?} and {b:?}"
            );
            assert_eq!(
                order_texts(a, b),
                as_order(a.cmp(b)),
                "text order of {a:?} and {b:?}"
            );
        }
    }
}

fn disk(path: &str, model: &str) -> DiskInventory {
    DiskInventory {
        path: path.to_string(),
        size_bytes: 1,
        logical_sector_bytes: 512,
        physical_sector_bytes: 512,
        model: model.to_string(),
        transport: "unknown".to_string(),
        read_only: false,
    }
}

#[test]
fn inventory_is_sorted_by_path_and_holds_each_path_once() {
    let found = vec![
        disk("/dev/sdb", "first b"),
        disk("/dev/a-b", "dash"),
        disk("/dev/sda", "first a"),
        disk("/dev/a/b", "nested"),
        disk("/dev//sda", "second a"),
        disk("/dev/sdb/", "second b"),
        disk("/dev/nvme0n1", "nvme"),
        disk("/dev/sda", "third a"),
    ];
    let mut expected = found.clone();
    expected.sort_by(|a, b| Path::new(&a.path).cmp(Path::new(&b.path)));
    assert_eq!(sort_by_path(&found), expected);
    expected.dedup_by(|a, b| Path::new(&a.path) == Path::new(&b.path));
    assert_eq!(drop_repeats(&sort_by_path(&found)), expected);

    let listed = finish_inventory(&found);
    assert_eq!(listed.schema_version, 1);
    assert_eq!(listed.disks, expected);
    let shown = listed
        .disks
        .iter()
        .map(|d| (d.path.as_str(), d.model.as_str()))
        .collect::<Vec<_>>();
    assert_eq!(
        shown,
        vec![
            ("/dev/a/b", "nested"),
            ("/dev/a-b", "dash"),
            ("/dev/nvme0n1", "nvme"),
            ("/dev/sda", "first a"),
            ("/dev/sdb", "first b"),
        ]
    );
    assert!(finish_inventory(&vec![]).disks.is_empty());
}

#[test]
fn every_order_of_the_same_disks_gives_the_same_paths() {
    let paths = ["/dev/c", "/dev/a", "/dev/b", "/dev/a/", "/dev/b"];
    let mut seen = Vec::new();
    for shift in 0..paths.len() {
        let found = (0..paths.len())
            .map(|i| disk(paths[(i + shift) % paths.len()], "x"))
            .collect::<Vec<_>>();
        let listed = finish_inventory(&found)
            .disks
            .into_iter()
            .map(|d| Path::new(&d.path).to_path_buf())
            .collect::<Vec<_>>();
        seen.push(listed);
    }
    for listed in &seen {
        assert_eq!(listed, &seen[0]);
        assert_eq!(listed.len(), 3);
    }
}
