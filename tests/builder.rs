use win_run::{win, Desktop, Elevation, ProcessBuilder};

#[test]
fn desktop_names() {
    assert_eq!(Desktop::Secure.name(), "WinSta0\\Winlogon");
    assert_eq!(Desktop::Default.name(), "");
}

#[test]
fn builder_defaults() {
    let b = ProcessBuilder::new("C:\\tools\\app.exe", "C:\\host");
    assert_eq!(b.path, "C:\\tools\\app.exe");
    assert_eq!(b.args, "");
    assert_eq!(b.directory, "C:\\host");
    assert_eq!(b.desktop, Desktop::Default);
    assert_eq!(b.elevation, Elevation::User);
    let w = win("a.exe", "C:\\host");
    assert_eq!(w.args, "");
    assert_eq!(w.directory, "C:\\host");
    assert_eq!(Elevation::default(), Elevation::User);
    assert_eq!(Desktop::default(), Desktop::Default);
}

#[test]
fn builder_setters() {
    let b = win("a.exe", "C:\\host")
        .args("-x 1")
        .directory("D:\\work")
        .desktop(Desktop::Secure)
        .elevation(Elevation::LocalSystem);
    assert_eq!(b.path, "a.exe");
    assert_eq!(b.args, "-x 1");
    assert_eq!(b.directory, "D:\\work");
    assert_eq!(b.desktop, Desktop::Secure);
    assert_eq!(b.elevation, Elevation::LocalSystem);
    assert_eq!(b.command_line(), "a.exe -x 1");
}
