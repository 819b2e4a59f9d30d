//! The registry's database records.

use vstd::prelude::*;

verus! {

/// A registered user, as GitHub describes them.
pub struct User {
    pub id: i32,
    pub username: String,
    pub email: String,
    pub avatar_url: String,
}

/// A published package.
pub struct Package {
    pub id: i32,
    pub package_name: String,
    pub publisher: i32,
    /// The package description, as JSON text.
    pub configuration: String,
    pub current_version: String,
}

/// A login token, handed to a user's browser.
pub struct UserToken {
    pub id: i32,
    pub user_id: i32,
}

/// The archive of one version of a package.
pub struct PackageArchive {
    pub id: i32,
    pub package_id: i32,
    pub version: String,
    pub archive: Vec<u8>,
}

/// A package record to insert.
pub struct NewPackage<'a> {
    pub package_name: &'a str,
    pub publisher: i32,
    pub configuration: &'a str,
    pub current_version: &'a str,
}

/// An archive record to insert.
pub struct NewPackageArchive {
    pub package_id: i32,
    pub version: String,
    pub archive: Vec<u8>,
}

/// A token record to insert.
pub struct CreateToken {
    pub user_id: i32,
}

impl<'a> NewPackage<'a> {
    /// The record for a package with this name, publisher, JSON description
    /// and current version.
    pub fn new(package_name: &'a str, publisher: i32, configuration: &'a str, current_version: &'a str) -> (r: NewPackage<'a>)
        ensures
            r.package_name@ == package_name@,
            r.publisher == publisher,
            r.configuration@ == configuration@,
            r.current_version@ == current_version@,
    {
        NewPackage { package_name, publisher, configuration, current_version }
    }
}

} // verus!
