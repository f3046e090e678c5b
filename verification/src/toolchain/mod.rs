//! Java toolchains: the JDKs found on the machine or in Jolt's cache, and the
//! binaries a build runs.
use vstd::prelude::*;

pub mod detector;
pub mod probe;

pub use detector::{detect_java_vendor, find_system_jdk, parse_java_major_version};

verus! {

/// The binaries of the JDK a build uses.
#[derive(Debug)]
pub struct Toolchain {
    pub version: String,
    pub major_version: u32,
    pub vendor: String,
    pub java_bin: String,
    pub javac_bin: String,
    pub jar_bin: String,
    pub jpackage_bin: String,
    pub native_image_bin: Option<String>,
}

/// A JDK installation found on the machine.
#[derive(Debug)]
pub struct InstalledJdk {
    pub version_raw: String,
    pub major_version: u32,
    pub vendor: String,
    pub home_dir: String,
    pub java_bin: String,
    pub javac_bin: String,
    pub jar_bin: String,
    pub jpackage_bin: String,
    pub native_image_bin: Option<String>,
}

/// The toolchain that uses an installed JDK: everything but its home.
pub open spec fn toolchain_of(j: InstalledJdk) -> Toolchain {
    Toolchain {
        version: j.version_raw,
        major_version: j.major_version,
        vendor: j.vendor,
        java_bin: j.java_bin,
        javac_bin: j.javac_bin,
        jar_bin: j.jar_bin,
        jpackage_bin: j.jpackage_bin,
        native_image_bin: j.native_image_bin,
    }
}

impl From<InstalledJdk> for Toolchain {
    fn from(jdk: InstalledJdk) -> (t: Self) {
        Toolchain {
            version: jdk.version_raw,
            major_version: jdk.major_version,
            vendor: jdk.vendor,
            java_bin: jdk.java_bin,
            javac_bin: jdk.javac_bin,
            jar_bin: jdk.jar_bin,
            jpackage_bin: jdk.jpackage_bin,
            native_image_bin: jdk.native_image_bin,
        }
    }
}

impl vstd::std_specs::convert::FromSpecImpl<InstalledJdk> for Toolchain {
    open spec fn obeys_from_spec() -> bool {
        true
    }

    open spec fn from_spec(jdk: InstalledJdk) -> Toolchain {
        toolchain_of(jdk)
    }
}

} // verus!
