//! Monitoring configuration, and turning it into one checker per service.

use vstd::prelude::*;
use crate::checker::HttpHealthCheckActor;
use crate::status::ServiceType;

verus! {

/// Defaults that apply to every service without its own setting.
#[derive(Clone, Debug)]
pub struct GlobalSettings {
    pub check_interval_seconds: u64,
    pub timeout_seconds: u64,
}

impl Default for GlobalSettings {
    /// A check every 60 seconds with a 5 second timeout.
    fn default() -> (r: Self)
        ensures
            r.check_interval_seconds == 60,
            r.timeout_seconds == 5,
    {
        GlobalSettings { check_interval_seconds: 60, timeout_seconds: 5 }
    }
}

/// One monitored service as configured.
#[derive(Clone, Debug)]
pub struct ServiceSettings {
    pub name: String,
    pub url: String,
    pub check_interval_seconds: Option<u16>,
    pub timeout_seconds: Option<u64>,
    pub response_code: Option<u16>,
    pub service_type: ServiceType,
    pub headers: Vec<String>,
}

/// The whole configuration document.
#[derive(Clone, Debug)]
pub struct ServiceConfiguration {
    pub global: GlobalSettings,
    pub services: Vec<ServiceSettings>,
}

/// Why a configuration cannot be monitored: the first offending service,
/// by its position in the list.
#[derive(Clone, Copy, Debug, PartialEq, Eq, Structural)]
pub enum ConfigError {
    EmptyName { index: usize },
    EmptyUrl { index: usize },
    ZeroInterval { index: usize },
    ZeroTimeout { index: usize },
}

/// The interval that applies to `s`: its own, else the global one.
pub open spec fn effective_interval(s: ServiceSettings, g: GlobalSettings) -> u64 {
    match s.check_interval_seconds {
        Some(v) => v as u64,
        None => g.check_interval_seconds,
    }
}

/// The timeout that applies to `s`: its own, else the global one.
pub open spec fn effective_timeout(s: ServiceSettings, g: GlobalSettings) -> u64 {
    match s.timeout_seconds {
        Some(v) => v,
        None => g.timeout_seconds,
    }
}

/// The first defect of service `index`, checked in the order name, URL,
/// interval, timeout.
pub open spec fn service_problem(s: ServiceSettings, g: GlobalSettings, index: usize) -> Option<ConfigError> {
    if s.name@.len() == 0 {
        Some(ConfigError::EmptyName { index })
    } else if s.url@.len() == 0 {
        Some(ConfigError::EmptyUrl { index })
    } else if effective_interval(s, g) == 0 {
        Some(ConfigError::ZeroInterval { index })
    } else if effective_timeout(s, g) == 0 {
        Some(ConfigError::ZeroTimeout { index })
    } else {
        None
    }
}

/// `c` is the checker that service `s` gets: its settings with the global
/// defaults filled in, not yet started.
pub open spec fn checker_for(c: HttpHealthCheckActor, s: ServiceSettings, g: GlobalSettings) -> bool {
    &&& c.name@ == s.name@
    &&& c.url@ == s.url@
    &&& c.interval_seconds == effective_interval(s, g)
    &&& c.timeout == effective_timeout(s, g)
    &&& c.response_code == s.response_code
    &&& c.headers@ == s.headers@
    &&& c.service_type == s.service_type
    &&& c.is_fresh()
}

fn copy_strings(v: &Vec<String>) -> (r: Vec<String>)
    ensures
        r@ == v@,
{
    let mut r: Vec<String> = Vec::new();
    let mut i: usize = 0;
    while i < v.len()
        invariant
            i <= v@.len(),
            r@ == v@.take(i as int),
        decreases v@.len() - i,
    {
        r.push(v[i].clone());
        assert(r@ =~= v@.take(i as int + 1));
        i = i + 1;
    }
    assert(v@.take(i as int) =~= v@);
    r
}

fn is_blank(s: &String) -> (r: bool)
    ensures
        r == (s@.len() == 0),
{
    s.as_str().is_empty()
}

impl ServiceConfiguration {
    /// One unstarted checker per configured service, in order, with global
    /// defaults applied. A configuration with any defective service is
    /// refused as a whole, naming the first defect.
    pub fn build_checkers(&self) -> (r: Result<Vec<HttpHealthCheckActor>, ConfigError>)
        ensures
            match r {
                Ok(cs) => {
                    &&& forall|i: int| 0 <= i < self.services@.len() ==>
                        #[trigger] service_problem(self.services@[i], self.global, i as usize) is None
                    &&& cs@.len() == self.services@.len()
                    &&& forall|i: int| 0 <= i < cs@.len() ==>
                        #[trigger] checker_for(cs@[i], self.services@[i], self.global)
                },
                Err(e) => exists|k: int| {
                    &&& 0 <= k < self.services@.len()
                    &&& #[trigger] service_problem(self.services@[k], self.global, k as usize) == Some(e)
                    &&& forall|j: int| 0 <= j < k ==>
                        #[trigger] service_problem(self.services@[j], self.global, j as usize) is None
                },
            },
    {
        let mut cs: Vec<HttpHealthCheckActor> = Vec::new();
        let mut i: usize = 0;
        while i < self.services.len()
            invariant
                i <= self.services@.len(),
                cs@.len() == i,
                forall|j: int| 0 <= j < i ==>
                    #[trigger] service_problem(self.services@[j], self.global, j as usize) is None,
                forall|j: int| 0 <= j < i ==> #[trigger] checker_for(cs@[j], self.services@[j], self.global),
            decreases self.services@.len() - i,
        {
            let s = &self.services[i];
            let interval: u64 = match s.check_interval_seconds {
                Some(v) => v as u64,
                None => self.global.check_interval_seconds,
            };
            let timeout: u64 = match s.timeout_seconds {
                Some(v) => v,
                None => self.global.timeout_seconds,
            };
            if is_blank(&s.name) {
                assert(service_problem(self.services@[i as int], self.global, (i as int) as usize)
                    == Some(ConfigError::EmptyName { index: i }));
                return Err(ConfigError::EmptyName { index: i });
            }
            if is_blank(&s.url) {
                assert(service_problem(self.services@[i as int], self.global, (i as int) as usize)
                    == Some(ConfigError::EmptyUrl { index: i }));
                return Err(ConfigError::EmptyUrl { index: i });
            }
            if interval == 0 {
                assert(service_problem(self.services@[i as int], self.global, (i as int) as usize)
                    == Some(ConfigError::ZeroInterval { index: i }));
                return Err(ConfigError::ZeroInterval { index: i });
            }
            if timeout == 0 {
                assert(service_problem(self.services@[i as int], self.global, (i as int) as usize)
                    == Some(ConfigError::ZeroTimeout { index: i }));
                return Err(ConfigError::ZeroTimeout { index: i });
            }
            let mut c = HttpHealthCheckActor::new(
                s.name.clone(),
                s.url.clone(),
                interval,
                timeout,
                s.response_code,
                copy_strings(&s.headers),
            );
            c.service_type = s.service_type;
            cs.push(c);
            i = i + 1;
        }
        Ok(cs)
    }
}

} // verus!
