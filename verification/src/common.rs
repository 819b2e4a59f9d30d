//! Data shared by the client and the server: the package description that
//! travels inside every archive (`package.toml`) and the client's own
//! configuration.

use vstd::prelude::*;

verus! {

/// The contents of a package's `package.toml`.
pub struct PackageConfig {
    pub name: String,
    pub version: String,
    pub author: String,
    pub post_script: Option<String>,
}

impl PackageConfig {
    /// A copy with the same field values.
    pub fn duplicate(&self) -> (r: PackageConfig)
        ensures
            r == *self,
    {
        let post_script = match &self.post_script {
            Some(s) => Some(s.clone()),
            None => None,
        };
        PackageConfig {
            name: self.name.clone(),
            version: self.version.clone(),
            author: self.author.clone(),
            post_script,
        }
    }
}

/// A package that the client has installed, and the repository it came from.
pub struct Package {
    pub name: String,
    pub version: String,
    pub repo: String,
}

/// The client's configuration: the repositories it knows, in the order they
/// were added, and the packages it has installed, in installation order.
pub struct ClientConfig {
    pub repos: Vec<String>,
    pub installed: Vec<Package>,
}

impl ClientConfig {
    /// The configuration a client starts with: no repositories and nothing
    /// installed.
    pub fn empty() -> (r: ClientConfig)
        ensures
            r.repos@.len() == 0,
            r.installed@.len() == 0,
    {
        ClientConfig { repos: Vec::new(), installed: Vec::new() }
    }

    /// Adds a repository at the end of the list.
    pub fn add_repo(&mut self, repo: String)
        ensures
            final(self).repos@ == old(self).repos@.push(repo),
            final(self).installed@ == old(self).installed@,
    {
        self.repos.push(repo);
    }

    /// Records a package installed from `repo`, after the ones installed
    /// before.
    pub fn record_install(&mut self, repo: &str, config: &PackageConfig)
        ensures
            final(self).repos@ == old(self).repos@,
            final(self).installed@.len() == old(self).installed@.len() + 1,
            final(self).installed@.take(old(self).installed@.len() as int) == old(self).installed@,
            final(self).installed@.last().name == config.name,
            final(self).installed@.last().version == config.version,
            final(self).installed@.last().repo@ == repo@,
    {
        let package = Package {
            repo: String::from_str(repo),
            name: config.name.clone(),
            version: config.version.clone(),
        };
        self.installed.push(package);
        proof {
            assert(self.installed@.take(old(self).installed@.len() as int) =~= old(self).installed@);
        }
    }
}

} // verus!
