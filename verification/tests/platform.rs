use editorconfig_checker::architecture::Architecture;
use editorconfig_checker::error::Error;
use editorconfig_checker::ostype::OsType;

#[test]
fn test_parse_os_type() {
    assert!("HALLO".parse::<OsType>().is_err());
    assert_eq!("Linux".parse::<OsType>().unwrap(), OsType::Linux);
    assert_eq!("Darwin".parse::<OsType>().unwrap(), OsType::Darwin);
    assert_eq!("macos".parse::<OsType>().unwrap(), OsType::Darwin);
    assert_eq!("WiNdOwS".parse::<OsType>().unwrap(), OsType::Windows);
}

#[test]
fn os_aliases_ignore_case() {
    for spelling in ["WiNdOwS", "windows", "Windows", "WINDOWS"] {
        assert_eq!(OsType::parse(spelling).unwrap(), OsType::Windows);
    }
    for spelling in ["darwin", "DARWIN", "macos", "MacOS", "MACOS"] {
        assert_eq!(OsType::parse(spelling).unwrap(), OsType::Darwin);
    }
}

#[test]
fn every_os_tag_is_an_alias() {
    let all = [
        OsType::Darwin,
        OsType::Dragonfly,
        OsType::FreeBSD,
        OsType::Linux,
        OsType::NetBSD,
        OsType::OpenBSD,
        OsType::Plan9,
        OsType::Solaris,
        OsType::Windows,
    ];
    for os in all {
        assert_eq!(OsType::parse(os.stringify()).unwrap(), os);
        assert_eq!(OsType::parse(&os.stringify().to_uppercase()).unwrap(), os);
        assert_eq!(OsType::from_lowercase(os.stringify()), Some(os));
    }
}

#[test]
fn os_tags_are_lowercase_names() {
    assert_eq!(OsType::Darwin.stringify(), "darwin");
    assert_eq!(OsType::Dragonfly.stringify(), "dragonfly");
    assert_eq!(OsType::FreeBSD.stringify(), "freebsd");
    assert_eq!(OsType::Linux.stringify(), "linux");
    assert_eq!(OsType::NetBSD.stringify(), "netbsd");
    assert_eq!(OsType::OpenBSD.stringify(), "openbsd");
    assert_eq!(OsType::Plan9.stringify(), "plan9");
    assert_eq!(OsType::Solaris.stringify(), "solaris");
    assert_eq!(OsType::Windows.stringify(), "windows");
}

#[test]
fn unknown_os_is_refused_with_its_name() {
    for name in ["HALLO", "", "linux ", "beos", "win", "macosx"] {
        match OsType::parse(name) {
            Err(Error::UnrecognizedPlatform(carried)) => assert_eq!(carried, name),
            other => panic!("expected a refusal of {:?}, got {:?}", name, other),
        }
    }
}

#[test]
fn lookup_of_lowercase_names_is_exact() {
    assert_eq!(OsType::from_lowercase("linux"), Some(OsType::Linux));
    assert_eq!(OsType::from_lowercase("macos"), Some(OsType::Darwin));
    assert_eq!(OsType::from_lowercase("Linux"), None);
    assert_eq!(Architecture::from_lowercase("x86_64"), Some(Architecture::Amd64));
    assert_eq!(Architecture::from_lowercase("X86_64"), None);
}

#[test]
fn architecture_aliases_ignore_case() {
    for spelling in ["x86_64", "X86_64", "x86_64".to_uppercase().as_str()] {
        assert_eq!(Architecture::parse(spelling).unwrap(), Architecture::Amd64);
    }
    for spelling in ["x86", "X86", "386"] {
        assert_eq!(spelling.parse::<Architecture>().unwrap(), Architecture::I386);
    }
}

#[test]
fn architecture_tags() {
    assert_eq!(Architecture::Amd64.stringify(), "amd64");
    assert_eq!(Architecture::I386.stringify(), "386");
    assert_eq!(
        Architecture::parse(Architecture::I386.stringify()).unwrap(),
        Architecture::I386
    );
}

#[test]
fn only_three_names_are_architectures() {
    assert_eq!(Architecture::from_lowercase("x86_64"), Some(Architecture::Amd64));
    assert_eq!(Architecture::from_lowercase("x86"), Some(Architecture::I386));
    assert_eq!(Architecture::from_lowercase("386"), Some(Architecture::I386));
    for name in ["amd64", "x86_6", "x86_64 ", "38", "3866", "i386", "x64", ""] {
        assert_eq!(Architecture::from_lowercase(name), None);
    }
}

#[test]
fn unknown_architecture_is_refused_with_its_name() {
    for name in ["ARM64", "", "x86-64", "i386", "sparc", "amd64", "AMD64", "Amd64"] {
        match Architecture::parse(name) {
            Err(Error::UnrecognizedArchitecture(carried)) => assert_eq!(carried, name),
            other => panic!("expected a refusal of {:?}, got {:?}", name, other),
        }
    }
}

#[test]
fn error_messages() {
    assert_eq!(
        Error::UnrecognizedPlatform(String::from("HALLO")).message(),
        "Cannot parse Operating System Name (HALLO)"
    );
    assert_eq!(
        Error::UnrecognizedArchitecture(String::from("sparc")).message(),
        "Cannot parse System Architecture (sparc)"
    );
    assert_eq!(Error::UnresolvableBasePath.message(), "Invalid Base Path");
    assert_eq!(
        Error::DownloadFailed(String::from("timed out")).message(),
        "Error downloading the file (timed out)"
    );
    assert_eq!(Error::UnpackFailed(String::from("bad header")).message(), "IO(bad header)");
    assert_eq!(
        Error::ExecutionFailed(String::from("not found")).message(),
        "Cannot run the binary (not found)"
    );
    assert_eq!(
        Error::OutputDecodingFailed(String::from("invalid utf-8")).message(),
        "Encoding error (invalid utf-8)"
    );
}
