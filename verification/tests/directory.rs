use printer::printers::{PrinterDirectory, PrinterInfo};

fn printer(name: &str, is_default: bool) -> PrinterInfo {
    PrinterInfo {
        name: name.to_string(),
        status: "READY".to_string(),
        is_default,
        port: "PORT1:".to_string(),
        driver: "Generic Driver".to_string(),
    }
}

#[test]
fn list_all_returns_every_printer_in_order() {
    let dir = PrinterDirectory {
        printers: vec![printer("Office", true), printer("Lab", false)],
    };
    let all = dir.list_all();
    assert_eq!(all.len(), 2);
    assert_eq!(all[0].name, "Office");
    assert!(all[0].is_default);
    assert_eq!(all[1].name, "Lab");
    assert_eq!(all[1].status, "READY");
    assert_eq!(all[1].port, "PORT1:");
    assert_eq!(all[1].driver, "Generic Driver");
}

#[test]
fn empty_directory_lists_empty_not_error() {
    let dir = PrinterDirectory::new();
    assert_eq!(dir.list_all().len(), 0);
    assert_eq!(dir.list_by_name(&"anything".to_string()).len(), 0);
}

#[test]
fn list_by_name_is_the_name_equal_subset_of_list_all() {
    let dir = PrinterDirectory {
        printers: vec![
            printer("X", false),
            printer("Office", true),
            printer("X", false),
            printer("x", false),
        ],
    };
    let all = dir.list_all();
    let by_name = dir.list_by_name(&"X".to_string());
    assert_eq!(by_name.len(), 2);
    for p in &by_name {
        assert_eq!(p.name, "X");
        assert!(all.iter().any(|q| q.name == p.name
            && q.status == p.status
            && q.is_default == p.is_default
            && q.port == p.port
            && q.driver == p.driver));
    }
    // native case-sensitivity: "x" does not match "X"
    assert_eq!(dir.list_by_name(&"x".to_string()).len(), 1);
    assert_eq!(dir.list_by_name(&"Y".to_string()).len(), 0);
}
