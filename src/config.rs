use vstd::prelude::*;
use crate::report::LogLevel;

verus! {

/// The kind of a serial port found on the machine, as far as the port
/// selection reads it.
#[derive(Clone, Debug)]
pub enum PortKind {
    /// A USB port, with the product name the device reports, if any.
    Usb(Option<String>),
    Pci,
    Bluetooth,
    Unknown,
}

/// One serial port found on the machine.
#[derive(Clone, Debug)]
pub struct PortEntry {
    pub port_name: String,
    pub kind: PortKind,
}

/// The port name reported when no USB port was found.
pub open spec fn not_found() -> Seq<char> {
    "Not found"@
}

/// The name of the last USB port among `ports`, or empty text when there is none.
pub open spec fn last_usb_name(ports: Seq<PortEntry>) -> Seq<char>
    decreases ports.len(),
{
    if ports.len() == 0 {
        Seq::empty()
    } else if ports.last().kind is Usb {
        ports.last().port_name@
    } else {
        last_usb_name(ports.drop_last())
    }
}

/// The last product name that a USB port among `ports` reports, or empty text.
pub open spec fn last_usb_product(ports: Seq<PortEntry>) -> Seq<char>
    decreases ports.len(),
{
    if ports.len() == 0 {
        Seq::empty()
    } else {
        match ports.last().kind {
            PortKind::Usb(Some(product)) => product@,
            _ => last_usb_product(ports.drop_last()),
        }
    }
}

/// Picks the flashing port among the serial ports found: the last USB port,
/// with the last product name a USB port reported. Where there is no USB port,
/// or the last one has an empty name, returns ("Not found", "N/A").
pub fn update_port(ports: &[PortEntry]) -> (r: (String, String))
    ensures
        last_usb_name(ports@).len() == 0 ==> r.0@ == not_found() && r.1@ == "N/A"@,
        last_usb_name(ports@).len() > 0 ==> r.0@ == last_usb_name(ports@) && r.1@
            == last_usb_product(ports@),
{
    let mut port = String::new();
    let mut product = String::new();
    let mut i: usize = 0;
    while i < ports.len()
        invariant
            i <= ports@.len(),
            port@ == last_usb_name(ports@.take(i as int)),
            product@ == last_usb_product(ports@.take(i as int)),
        decreases ports@.len() - i,
    {
        proof {
            assert(ports@.take(i + 1).drop_last() =~= ports@.take(i as int));
        }
        match &ports[i].kind {
            PortKind::Usb(info) => {
                port = ports[i].port_name.clone();
                if let Some(name) = info {
                    product = name.clone();
                }
            },
            _ => {},
        }
        i = i + 1;
    }
    proof {
        assert(ports@.take(ports@.len() as int) =~= ports@);
    }
    if port.as_str().is_empty() {
        (String::from_str("Not found"), String::from_str("N/A"))
    } else {
        (port, product)
    }
}

/// The paths and port strings the flashing tools are started with.
#[derive(Clone, Debug)]
pub struct Config {
    pub fh_loader_path: String,
    pub sahara_server_path: String,
    pub fh_loader_path_linux: String,
    pub sahara_server_path_linux: String,
    pub port_path: String,
    pub fh_port_conn_str: String,
    pub sahara_port_conn_str: String,
    pub fh_port_conn_str_linux: String,
    pub sahara_port_conn_str_linux: String,
    /// The directory the tools run in: the one that holds the program.
    pub current_dir: String,
    pub is_connect: bool,
    pub log_level: LogLevel,
}

/// Whether `s` is a single relative path component that names an entry: no
/// separator, no drive, and neither `.` nor `..`.
pub open spec fn is_plain_name(s: Seq<char>) -> bool {
    &&& s.len() > 0
    &&& forall|i: int| 0 <= i < s.len() ==> #[trigger] s[i] != '/' && s[i] != '\\' && s[i] != ':'
    &&& s != "."@
    &&& s != ".."@
}

pub open spec fn is_separator(c: char) -> bool {
    c == '/' || c == '\\'
}

/// Whether `dir` may carry a Windows verbatim prefix (`\\?\`), under which
/// joining rebuilds the directory part of the path.
pub open spec fn is_verbatim_like(dir: Seq<char>) -> bool {
    &&& dir.len() >= 4
    &&& is_separator(dir[0])
    &&& is_separator(dir[1])
    &&& dir[2] == '?'
    &&& is_separator(dir[3])
}

/// Whether `p` is a path that ends with `name` and, unless `dir` may be a
/// verbatim path, begins with `dir`.
pub open spec fn is_joined(p: Seq<char>, dir: Seq<char>, name: Seq<char>) -> bool {
    &&& p.len() >= name.len()
    &&& p.subrange(p.len() - name.len(), p.len() as int) == name
    &&& !is_verbatim_like(dir) ==> {
        &&& p.len() >= dir.len() + name.len()
        &&& p.subrange(0, dir.len() as int) == dir
    }
}

/// The directory that holds the program, as far as its path could be read.
#[derive(Debug)]
pub enum ProgramDir {
    /// A directory whose path is Unicode text.
    Text(String),
    /// A directory whose path is not Unicode, with a lossy rendering of it.
    NonUnicode(String),
}

/// The path text of a program directory.
pub open spec fn dir_text(d: ProgramDir) -> Seq<char> {
    match d {
        ProgramDir::Text(t) => t@,
        ProgramDir::NonUnicode(t) => t@,
    }
}

/// Whether `p` is the path tool `name` is started by from directory `d`: its
/// path below `d` where that is text, the bare name otherwise.
pub open spec fn is_tool_path_for(p: Seq<char>, d: ProgramDir, name: Seq<char>) -> bool {
    match d {
        ProgramDir::Text(t) => is_tool_path(p, t@, name),
        ProgramDir::NonUnicode(_) => p == name,
    }
}

/// Whether `c` is the configuration used when no device or no program
/// directory was found: every text empty, not connected, `Info` logging.
pub open spec fn is_unset(c: Config) -> bool {
    &&& c.fh_loader_path@.len() == 0
    &&& c.sahara_server_path@.len() == 0
    &&& c.fh_loader_path_linux@.len() == 0
    &&& c.sahara_server_path_linux@.len() == 0
    &&& c.port_path@.len() == 0
    &&& c.fh_port_conn_str@.len() == 0
    &&& c.sahara_port_conn_str@.len() == 0
    &&& c.fh_port_conn_str_linux@.len() == 0
    &&& c.sahara_port_conn_str_linux@.len() == 0
    &&& c.current_dir@.len() == 0
    &&& !c.is_connect
    &&& c.log_level == LogLevel::Info
}

/// Whether `p` is the path of tool `name` in the "tools" directory below `dir`,
/// as far as `is_joined` tells it.
pub open spec fn is_tool_path(p: Seq<char>, dir: Seq<char>, name: Seq<char>) -> bool {
    exists|tools: Seq<char>| is_joined(tools, dir, "tools"@) && #[trigger] is_joined(p, tools, name)
}

/// Relies on `std::path::Path::join`: joining a relative single-component
/// name puts the name at the end of the path and, unless the directory is a
/// Windows verbatim path (which is normalized), keeps the directory as its
/// start.
#[verifier::external_body]
fn join_path(dir: &str, name: &str) -> (r: String)
    requires
        is_plain_name(name@),
    ensures
        is_joined(r@, dir@, name@),
{
    std::path::Path::new(dir).join(name).to_string_lossy().into_owned()
}

/// The path of tool `name` in the "tools" directory below `dir`.
fn tool_path(dir: &str, name: &str) -> (r: String)
    requires
        is_plain_name(name@),
    ensures
        is_tool_path(r@, dir@, name@),
{
    proof {
        reveal_strlit("tools");
        reveal_strlit(".");
        reveal_strlit("..");
        assert("tools"@.len() != "."@.len() && "tools"@.len() != ".."@.len());
    }
    let tools = join_path(dir, "tools");
    let r = join_path(tools.as_str(), name);
    assert(is_joined(tools@, dir@, "tools"@) && is_joined(r@, tools@, name@));
    r
}

/// The path tool `name` is started by from directory `dir`.
fn tool_path_for(dir: &ProgramDir, name: &str) -> (r: String)
    requires
        is_plain_name(name@),
    ensures
        is_tool_path_for(r@, *dir, name@),
{
    match dir {
        ProgramDir::Text(t) => tool_path(t.as_str(), name),
        ProgramDir::NonUnicode(_) => name.to_owned(),
    }
}

impl Config {
    /// The configuration used before a device is found.
    pub fn unset() -> (r: Config)
        ensures
            is_unset(r),
    {
        Config {
            fh_loader_path: String::new(),
            sahara_server_path: String::new(),
            fh_loader_path_linux: String::new(),
            sahara_server_path_linux: String::new(),
            port_path: String::new(),
            fh_port_conn_str: String::new(),
            sahara_port_conn_str: String::new(),
            fh_port_conn_str_linux: String::new(),
            sahara_port_conn_str_linux: String::new(),
            current_dir: String::new(),
            is_connect: false,
            log_level: LogLevel::Info,
        }
    }

    /// Builds the configuration from the port that `update_port` picked and
    /// the directory that holds the program, if it could be found. Where no
    /// device was found or the directory is unknown, the configuration stays
    /// unset. Where the directory's path is not Unicode, the tools are named
    /// bare.
    pub fn setup_env(debug: bool, port_path: &str, exe_dir: Option<&ProgramDir>) -> (r: Config)
        ensures
            port_path@ == not_found() || exe_dir is None ==> is_unset(r),
            port_path@ != not_found() && exe_dir is Some ==> {
                let dir = *exe_dir.unwrap();
                &&& r.current_dir@ == dir_text(dir)
                &&& r.port_path@ == port_path@
                &&& r.fh_port_conn_str@ == "--port=\\\\.\\"@ + port_path@
                &&& r.sahara_port_conn_str@ == "\\\\.\\"@ + port_path@
                &&& r.fh_port_conn_str_linux@ == "--port="@ + port_path@
                &&& r.sahara_port_conn_str_linux@ == port_path@
                &&& is_tool_path_for(r.fh_loader_path@, dir, "fh_loader.exe"@)
                &&& is_tool_path_for(r.sahara_server_path@, dir, "QSaharaServer.exe"@)
                &&& is_tool_path_for(r.fh_loader_path_linux@, dir, "fh_loader"@)
                &&& is_tool_path_for(r.sahara_server_path_linux@, dir, "QSaharaServer"@)
                &&& r.is_connect
                &&& r.log_level == (if debug {
                    LogLevel::Debug
                } else {
                    LogLevel::Info
                })
            },
    {
        let config = Config::unset();
        proof {
            reveal_strlit("Not found");
            reveal_strlit("fh_loader.exe");
            reveal_strlit("QSaharaServer.exe");
            reveal_strlit("fh_loader");
            reveal_strlit("QSaharaServer");
            reveal_strlit("--port=\\\\.\\");
            reveal_strlit(".");
            reveal_strlit("..");
            assert("fh_loader"@.len() > 2 && "QSaharaServer"@.len() > 2);
            assert("fh_loader.exe"@.len() > 2 && "QSaharaServer.exe"@.len() > 2);
        }
        if port_path.to_owned() == String::from_str("Not found") {
            return config;
        }
        let dir = match exe_dir {
            Some(dir) => dir,
            None => return config,
        };
        let dir_path = match dir {
            ProgramDir::Text(t) => t.as_str(),
            ProgramDir::NonUnicode(t) => t.as_str(),
        };
        let fh_port_conn_str = String::from_str("--port=\\\\.\\").concat(port_path);
        let log_level = if debug {
            LogLevel::Debug
        } else {
            LogLevel::Info
        };
        Config {
            fh_loader_path: tool_path_for(dir, "fh_loader.exe"),
            sahara_server_path: tool_path_for(dir, "QSaharaServer.exe"),
            fh_loader_path_linux: tool_path_for(dir, "fh_loader"),
            sahara_server_path_linux: tool_path_for(dir, "QSaharaServer"),
            port_path: port_path.to_owned(),
            is_connect: !fh_port_conn_str.as_str().is_empty(),
            fh_port_conn_str,
            sahara_port_conn_str: String::from_str("\\\\.\\").concat(port_path),
            fh_port_conn_str_linux: String::from_str("--port=").concat(port_path),
            sahara_port_conn_str_linux: port_path.to_owned(),
            current_dir: dir_path.to_owned(),
            log_level,
        }
    }
}

} // verus!
