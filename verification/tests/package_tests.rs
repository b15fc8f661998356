use huak::package::PythonPackage;

#[test]
fn install_arg_pins_exact_version() {
    let package = PythonPackage { name: "foo".to_string(), version: "1.2.3".to_string() };
    assert_eq!(package.install_arg(), "foo==1.2.3");
}

#[test]
fn install_arg_with_empty_version_is_bare_name() {
    let package = PythonPackage { name: "foo".to_string(), version: String::new() };
    assert_eq!(package.install_arg(), "foo");
}

#[test]
fn new_package_is_unconstrained() {
    let package = PythonPackage::new("black".to_string());
    assert_eq!(package.name, "black");
    assert_eq!(package.version, "");
    assert_eq!(package.install_arg(), "black");
}
