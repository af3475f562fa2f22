//! Manages the service on the system.
//!
//! The [`Controller`] holds the service's identity (name, display name,
//! description) and performs the service-database operations: create,
//! delete, start, stop, and register. The database itself is modeled by
//! [`ServiceDb`]: the set of installed services with their running state,
//! together with two cumulative counters of native handles opened and
//! closed. The counters make the handle discipline a stated contract:
//! every operation that opens a handle closes it exactly once before it
//! returns, on the success path and on every error path alike.

use vstd::prelude::*;
use crate::Error;
use crate::bridge;
use crate::channel::EventQueue;

verus! {

/// One service's entry in the service database.
pub struct ServiceRecord {
    pub name: String,
    pub display_name: String,
    pub description: String,
    pub executable_path: String,
    pub running: bool,
}

/// Whether some installed service is named `name`.
pub open spec fn has_service(services: Seq<ServiceRecord>, name: Seq<char>) -> bool {
    exists|i: int| 0 <= i < services.len() && services[i].name@ == name
}

/// Whether the installed service named `name` is running.
pub open spec fn service_running(services: Seq<ServiceRecord>, name: Seq<char>) -> bool {
    exists|i: int| 0 <= i < services.len() && services[i].name@ == name && services[i].running
}

/// `record` with its running flag replaced.
pub open spec fn with_running(record: ServiceRecord, running: bool) -> ServiceRecord {
    ServiceRecord {
        name: record.name,
        display_name: record.display_name,
        description: record.description,
        executable_path: record.executable_path,
        running,
    }
}

/// An owned handle to one service database entry, valid between the open
/// that produced it and the close that consumes it.
pub struct ServiceHandle {
    pub index: usize,
}

/// The service database: the installed services in installation order,
/// plus cumulative counts of the native handles opened and closed against
/// it. Service names are unique, and no handle is closed that was never
/// opened.
pub struct ServiceDb {
    services: Vec<ServiceRecord>,
    opens: u64,
    closes: u64,
}

impl ServiceDb {
    /// The installed services, in installation order.
    pub closed spec fn spec_services(&self) -> Seq<ServiceRecord> {
        self.services@
    }

    /// How many handles have ever been opened against this database.
    pub closed spec fn spec_opens(&self) -> u64 {
        self.opens
    }

    /// How many handles have ever been closed against this database.
    pub closed spec fn spec_closes(&self) -> u64 {
        self.closes
    }

    /// Well-formedness: service names are unique, and no handle was closed
    /// that was never opened.
    pub open spec fn wf(&self) -> bool {
        &&& forall|i: int, j: int|
            0 <= i < j < self.spec_services().len() ==> self.spec_services()[i].name@
                != self.spec_services()[j].name@
        &&& self.spec_closes() <= self.spec_opens()
    }

    /// An empty service database with no handle history.
    pub fn new() -> (db: ServiceDb)
        ensures
            db.wf(),
            db.spec_services() == Seq::<ServiceRecord>::empty(),
            db.spec_opens() == 0,
            db.spec_closes() == 0,
    {
        ServiceDb { services: Vec::new(), opens: 0, closes: 0 }
    }

    /// How many services are installed.
    pub fn service_count(&self) -> (n: usize)
        ensures
            n == self.spec_services().len(),
    {
        self.services.len()
    }

    /// How many handles have ever been opened against this database.
    pub fn opens(&self) -> (n: u64)
        ensures
            n == self.spec_opens(),
    {
        self.opens
    }

    /// How many handles have ever been closed against this database.
    pub fn closes(&self) -> (n: u64)
        ensures
            n == self.spec_closes(),
    {
        self.closes
    }

    /// Whether a service named `name` is installed.
    pub fn is_installed(&self, name: &String) -> (b: bool)
        ensures
            b == has_service(self.spec_services(), name@),
    {
        match self.find_index(name) {
            Some(_) => true,
            None => false,
        }
    }

    /// Whether the service named `name` is installed and running.
    pub fn is_running(&self, name: &String) -> (b: bool)
        requires
            self.wf(),
        ensures
            b == service_running(self.spec_services(), name@),
    {
        match self.find_index(name) {
            Some(i) => {
                let b = self.services[i].running;
                proof {
                    if !b {
                        assert forall|j: int|
                            0 <= j < self.spec_services().len() && self.spec_services()[j].name@
                                == name@ implies !self.spec_services()[j].running by {
                            if j < i as int {
                                assert(self.spec_services()[j].name@ != self.spec_services()[
                                    i as int
                                ].name@);
                            } else if j > i as int {
                                assert(self.spec_services()[i as int].name@ != self.spec_services()[
                                    j
                                ].name@);
                            }
                        }
                    }
                }
                b
            },
            None => false,
        }
    }

    /// The index of the service named `name`, if one is installed.
    fn find_index(&self, name: &String) -> (r: Option<usize>)
        ensures
            match r {
                Some(i) => i < self.spec_services().len() && self.spec_services()[i as int].name@
                    == name@,
                None => !has_service(self.spec_services(), name@),
            },
    {
        let n = self.services.len();
        let mut i: usize = 0;
        while i < n
            invariant
                i <= n,
                n == self.spec_services().len(),
                forall|k: int| 0 <= k < i ==> self.spec_services()[k].name@ != name@,
            decreases n - i,
        {
            if self.services[i].name == *name {
                return Some(i);
            }
            i = i + 1;
        }
        None
    }

    /// Opens a handle to the service named `name`; fails if no such
    /// service is installed, leaving the database untouched.
    pub fn open_service(&mut self, name: &String) -> (r: Result<ServiceHandle, Error>)
        requires
            old(self).wf(),
            old(self).spec_opens() < u64::MAX,
        ensures
            final(self).wf(),
            final(self).spec_services() == old(self).spec_services(),
            final(self).spec_closes() == old(self).spec_closes(),
            r is Ok <==> has_service(old(self).spec_services(), name@),
            r matches Ok(h) ==> final(self).spec_opens() == old(self).spec_opens() + 1 && h.index
                < old(self).spec_services().len() && old(self).spec_services()[
                h.index as int
            ].name@ == name@,
            r matches Err(e) ==> final(self).spec_opens() == old(self).spec_opens()
                && e.message@.len() > 0,
    {
        match self.find_index(name) {
            Some(i) => {
                self.opens = self.opens + 1;
                Ok(ServiceHandle { index: i })
            },
            None => {
                let e = Error::new("service does not exist");
                proof {
                    reveal_strlit("service does not exist");
                }
                Err(e)
            },
        }
    }

    /// Closes a handle opened against this database.
    pub fn close_service(&mut self, handle: ServiceHandle)
        requires
            old(self).wf(),
            old(self).spec_closes() < old(self).spec_opens(),
        ensures
            final(self).wf(),
            final(self).spec_services() == old(self).spec_services(),
            final(self).spec_opens() == old(self).spec_opens(),
            final(self).spec_closes() == old(self).spec_closes() + 1,
    {
        let ServiceHandle { index: _ } = handle;
        self.closes = self.closes + 1;
        proof {
            assert(final(self).spec_services() =~= old(self).spec_services());
        }
    }

    /// Installs a service and returns a handle to the new entry; fails if
    /// a service of that name already exists, leaving the database
    /// untouched. A new entry starts out not running.
    pub fn create_service(
        &mut self,
        name: &String,
        display_name: &String,
        description: &String,
        executable_path: &String,
    ) -> (r: Result<ServiceHandle, Error>)
        requires
            old(self).wf(),
            old(self).spec_opens() < u64::MAX,
        ensures
            final(self).wf(),
            final(self).spec_closes() == old(self).spec_closes(),
            r is Ok <==> !has_service(old(self).spec_services(), name@),
            r matches Ok(h) ==> final(self).spec_services() == old(self).spec_services().push(
                (ServiceRecord {
                    name: *name,
                    display_name: *display_name,
                    description: *description,
                    executable_path: *executable_path,
                    running: false,
                }),
            ) && final(self).spec_opens() == old(self).spec_opens() + 1 && h.index == old(
                self).spec_services().len(),
            r matches Err(e) ==> final(self).spec_services() == old(self).spec_services() && final(
                self).spec_opens() == old(self).spec_opens() && e.message@.len() > 0,
    {
        match self.find_index(name) {
            Some(_) => {
                let e = Error::new("service already exists");
                proof {
                    reveal_strlit("service already exists");
                }
                Err(e)
            },
            None => {
                let index = self.services.len();
                let record = ServiceRecord {
                    name: name.clone(),
                    display_name: display_name.clone(),
                    description: description.clone(),
                    executable_path: executable_path.clone(),
                    running: false,
                };
                self.services.push(record);
                self.opens = self.opens + 1;
                Ok(ServiceHandle { index })
            },
        }
    }

    /// Removes the entry `handle` points at from the database.
    pub fn delete_service(&mut self, handle: &ServiceHandle)
        requires
            old(self).wf(),
            handle.index < old(self).spec_services().len(),
        ensures
            final(self).wf(),
            final(self).spec_services() == old(self).spec_services().remove(handle.index as int),
            final(self).spec_opens() == old(self).spec_opens(),
            final(self).spec_closes() == old(self).spec_closes(),
    {
        let _ = self.services.remove(handle.index);
    }

    /// Sends the start request to the entry `handle` points at; fails if
    /// that service is already running, leaving the database untouched.
    pub fn start_service(&mut self, handle: &ServiceHandle) -> (r: Result<(), Error>)
        requires
            old(self).wf(),
            handle.index < old(self).spec_services().len(),
        ensures
            final(self).wf(),
            final(self).spec_opens() == old(self).spec_opens(),
            final(self).spec_closes() == old(self).spec_closes(),
            r is Ok <==> !old(self).spec_services()[handle.index as int].running,
            r is Ok ==> final(self).spec_services() == old(self).spec_services().update(
                handle.index as int,
                with_running(old(self).spec_services()[handle.index as int], true),
            ),
            r matches Err(e) ==> final(self).spec_services() == old(self).spec_services()
                && e.message@.len() > 0,
    {
        if self.services[handle.index].running {
            let e = Error::new("service is already running");
            proof {
                reveal_strlit("service is already running");
            }
            Err(e)
        } else {
            let record = self.services.remove(handle.index);
            let updated = ServiceRecord {
                name: record.name,
                display_name: record.display_name,
                description: record.description,
                executable_path: record.executable_path,
                running: true,
            };
            self.services.insert(handle.index, updated);
            proof {
                assert(self.spec_services() =~= old(self).spec_services().update(
                    handle.index as int,
                    with_running(old(self).spec_services()[handle.index as int], true),
                ));
            }
            Ok(())
        }
    }

    /// Sends the stop request to the entry `handle` points at; fails if
    /// that service is not running, leaving the database untouched.
    pub fn stop_service(&mut self, handle: &ServiceHandle) -> (r: Result<(), Error>)
        requires
            old(self).wf(),
            handle.index < old(self).spec_services().len(),
        ensures
            final(self).wf(),
            final(self).spec_opens() == old(self).spec_opens(),
            final(self).spec_closes() == old(self).spec_closes(),
            r is Ok <==> old(self).spec_services()[handle.index as int].running,
            r is Ok ==> final(self).spec_services() == old(self).spec_services().update(
                handle.index as int,
                with_running(old(self).spec_services()[handle.index as int], false),
            ),
            r matches Err(e) ==> final(self).spec_services() == old(self).spec_services()
                && e.message@.len() > 0,
    {
        if !self.services[handle.index].running {
            let e = Error::new("service is not running");
            proof {
                reveal_strlit("service is not running");
            }
            Err(e)
        } else {
            let record = self.services.remove(handle.index);
            let updated = ServiceRecord {
                name: record.name,
                display_name: record.display_name,
                description: record.description,
                executable_path: record.executable_path,
                running: false,
            };
            self.services.insert(handle.index, updated);
            proof {
                assert(self.spec_services() =~= old(self).spec_services().update(
                    handle.index as int,
                    with_running(old(self).spec_services()[handle.index as int], false),
                ));
            }
            Ok(())
        }
    }
}

/// Manages one service's registration in the service database: create,
/// delete, start, stop, and register. Each operation opens its own handle,
/// uses it, and closes it exactly once before returning — on the success
/// path and on every error path — so no handle outlives the operation that
/// acquired it.
pub struct Controller {
    pub name: String,
    pub display_name: String,
    pub description: String,
}

impl Controller {
    /// A controller for the service named `name`.
    pub fn new(name: &str, display_name: &str, description: &str) -> (c: Controller)
        ensures
            c.name@ == name@,
            c.display_name@ == display_name@,
            c.description@ == description@,
    {
        Controller {
            name: name.to_owned(),
            display_name: display_name.to_owned(),
            description: description.to_owned(),
        }
    }

    /// Installs the service into the database, with `executable_path` as
    /// the program to run. Fails — with a non-empty message, leaving the
    /// database untouched — exactly when a service of this name already
    /// exists. On success the new entry is appended, not running; the one
    /// handle the installation opened has been closed again.
    pub fn create(&self, db: &mut ServiceDb, executable_path: &String) -> (r: Result<(), Error>)
        requires
            old(db).wf(),
            old(db).spec_opens() < u64::MAX,
        ensures
            final(db).wf(),
            r is Ok <==> !has_service(old(db).spec_services(), self.name@),
            has_service(final(db).spec_services(), self.name@),
            r matches Err(e) ==> e.message@.len() > 0 && final(db).spec_services() == old(
                db).spec_services() && final(db).spec_opens() == old(db).spec_opens() && final(
                db).spec_closes() == old(db).spec_closes(),
            r is Ok ==> final(db).spec_services() == old(db).spec_services().push(
                (ServiceRecord {
                    name: self.name,
                    display_name: self.display_name,
                    description: self.description,
                    executable_path: *executable_path,
                    running: false,
                }),
            ) && final(db).spec_opens() == old(db).spec_opens() + 1 && final(db).spec_closes()
                == old(db).spec_closes() + 1,
    {
        match db.create_service(&self.name, &self.display_name, &self.description, executable_path) {
            Ok(handle) => {
                db.close_service(handle);
                proof {
                    assert(db.spec_services()[old(db).spec_services().len() as int].name@
                        == self.name@);
                }
                Ok(())
            },
            Err(e) => Err(e),
        }
    }

    /// Removes the service from the database. Fails — with a non-empty
    /// message, leaving the database untouched — exactly when no service
    /// of this name exists. On success the entry is gone; the one handle
    /// the operation opened has been closed again.
    pub fn delete(&self, db: &mut ServiceDb) -> (r: Result<(), Error>)
        requires
            old(db).wf(),
            old(db).spec_opens() < u64::MAX,
        ensures
            final(db).wf(),
            r is Ok <==> has_service(old(db).spec_services(), self.name@),
            r matches Err(e) ==> e.message@.len() > 0 && final(db).spec_services() == old(
                db).spec_services() && final(db).spec_opens() == old(db).spec_opens() && final(
                db).spec_closes() == old(db).spec_closes(),
            r is Ok ==> (exists|i: int|
                0 <= i < old(db).spec_services().len() && old(db).spec_services()[i].name@
                    == self.name@ && final(db).spec_services() == old(db).spec_services().remove(
                    i,
                )) && final(db).spec_opens() == old(db).spec_opens() + 1 && final(db).spec_closes()
                == old(db).spec_closes() + 1,
            !has_service(final(db).spec_services(), self.name@),
    {
        match db.open_service(&self.name) {
            Ok(handle) => {
                db.delete_service(&handle);
                db.close_service(handle);
                proof {
                    let services0 = old(db).spec_services();
                    let i = handle.index as int;
                    assert forall|j: int|
                        0 <= j < db.spec_services().len() implies db.spec_services()[j].name@
                        != self.name@ by {
                        if j < i {
                            assert(db.spec_services()[j] == services0[j]);
                            assert(services0[j].name@ != services0[i].name@);
                        } else {
                            assert(db.spec_services()[j] == services0[j + 1]);
                            assert(services0[i].name@ != services0[j + 1].name@);
                        }
                    }
                }
                Ok(())
            },
            Err(e) => Err(e),
        }
    }

    /// Sends the start request to the service. Fails — with a non-empty
    /// message — when no service of this name exists (no handle is then
    /// opened) or when the service is already running (the handle opened
    /// before the failing request is still closed exactly once). On
    /// success the service's entry is marked running. Whenever a handle
    /// was opened, it has been closed again by return time.
    pub fn start(&self, db: &mut ServiceDb) -> (r: Result<(), Error>)
        requires
            old(db).wf(),
            old(db).spec_opens() < u64::MAX,
        ensures
            final(db).wf(),
            r is Ok <==> has_service(old(db).spec_services(), self.name@) && !service_running(
                old(db).spec_services(),
                self.name@,
            ),
            has_service(final(db).spec_services(), self.name@) == has_service(
                old(db).spec_services(),
                self.name@,
            ),
            r matches Err(e) ==> e.message@.len() > 0 && final(db).spec_services() == old(
                db).spec_services(),
            !has_service(old(db).spec_services(), self.name@) ==> final(db).spec_opens() == old(
                db).spec_opens() && final(db).spec_closes() == old(db).spec_closes(),
            has_service(old(db).spec_services(), self.name@) ==> final(db).spec_opens() == old(
                db).spec_opens() + 1 && final(db).spec_closes() == old(db).spec_closes() + 1,
            r is Ok ==> exists|i: int|
                0 <= i < old(db).spec_services().len() && old(db).spec_services()[i].name@
                    == self.name@ && final(db).spec_services() == old(db).spec_services().update(
                    i,
                    with_running(old(db).spec_services()[i], true),
                ),
            service_running(final(db).spec_services(), self.name@) == has_service(
                old(db).spec_services(),
                self.name@,
            ),
    {
        let handle = match db.open_service(&self.name) {
            Ok(handle) => handle,
            Err(e) => {
                return Err(e);
            },
        };
        proof {
            self.lemma_unique_name_index(old(db).spec_services(), handle.index as int);
        }
        let outcome = db.start_service(&handle);
        db.close_service(handle);
        proof {
            if outcome is Ok {
                assert(db.spec_services()[handle.index as int].running);
                self.lemma_unique_name_index(db.spec_services(), handle.index as int);
            } else {
                assert(old(db).spec_services()[handle.index as int].running);
            }
        }
        outcome
    }

    /// Sends the stop request to the service. Fails — with a non-empty
    /// message — when no service of this name exists (no handle is then
    /// opened) or when the service is not running (the handle opened
    /// before the failing request is still closed exactly once). On
    /// success the service's entry is no longer marked running. Whenever a
    /// handle was opened, it has been closed again by return time.
    pub fn stop(&self, db: &mut ServiceDb) -> (r: Result<(), Error>)
        requires
            old(db).wf(),
            old(db).spec_opens() < u64::MAX,
        ensures
            final(db).wf(),
            r is Ok <==> service_running(old(db).spec_services(), self.name@),
            has_service(final(db).spec_services(), self.name@) == has_service(
                old(db).spec_services(),
                self.name@,
            ),
            r matches Err(e) ==> e.message@.len() > 0 && final(db).spec_services() == old(
                db).spec_services(),
            !has_service(old(db).spec_services(), self.name@) ==> final(db).spec_opens() == old(
                db).spec_opens() && final(db).spec_closes() == old(db).spec_closes(),
            has_service(old(db).spec_services(), self.name@) ==> final(db).spec_opens() == old(
                db).spec_opens() + 1 && final(db).spec_closes() == old(db).spec_closes() + 1,
            r is Ok ==> exists|i: int|
                0 <= i < old(db).spec_services().len() && old(db).spec_services()[i].name@
                    == self.name@ && final(db).spec_services() == old(db).spec_services().update(
                    i,
                    with_running(old(db).spec_services()[i], false),
                ),
            !service_running(final(db).spec_services(), self.name@),
    {
        let handle = match db.open_service(&self.name) {
            Ok(handle) => handle,
            Err(e) => {
                return Err(e);
            },
        };
        proof {
            self.lemma_unique_name_index(old(db).spec_services(), handle.index as int);
        }
        let outcome = db.stop_service(&handle);
        db.close_service(handle);
        proof {
            assert(db.spec_services()[handle.index as int].name@ == self.name@);
            assert forall|j: int|
                0 <= j < db.spec_services().len() && db.spec_services()[j].name@
                    == self.name@ implies !db.spec_services()[j].running by {
                if j < handle.index as int {
                    assert(old(db).spec_services()[j].name@ != old(db).spec_services()[
                        handle.index as int
                    ].name@);
                } else if j > handle.index as int {
                    assert(old(db).spec_services()[handle.index as int].name@ != old(
                        db).spec_services()[j].name@);
                }
            }
        }
        outcome
    }

    /// With unique names, any index holding this controller's service name
    /// is the only one, and the running flag there decides
    /// `service_running` for the whole database.
    proof fn lemma_unique_name_index(&self, services: Seq<ServiceRecord>, i: int)
        requires
            forall|p: int, q: int|
                0 <= p < q < services.len() ==> services[p].name@ != services[q].name@,
            0 <= i < services.len(),
            services[i].name@ == self.name@,
        ensures
            forall|j: int|
                0 <= j < services.len() && services[j].name@ == self.name@ ==> j == i,
            service_running(services, self.name@) == services[i].running,
    {
        assert forall|j: int|
            0 <= j < services.len() && services[j].name@ == self.name@ implies j == i by {
            if j < i {
                assert(services[j].name@ != services[i].name@);
            } else if j > i {
                assert(services[i].name@ != services[j].name@);
            }
        }
        if services[i].running {
            assert(service_running(services, self.name@));
        }
    }

    /// Registers the service's entry point with the control bridge and
    /// runs it: delegates to [`bridge::run_service`], which reports
    /// `StartPending`, calls `service_main` with the event channel and
    /// `standalone == false`, reports `Stopped` with the exit code
    /// `service_main` returned, and releases the status handle.
    pub fn register<T, F: FnOnce(EventQueue<T>, Vec<String>, bool) -> u32>(
        &self,
        service_main: F,
        events: EventQueue<T>,
        args: Vec<String>,
        handle: &mut bridge::StatusHandle,
    ) -> (exit: u32)
        requires
            old(handle).spec_open(),
            call_requires(service_main, (events, args, false)),
        ensures
            call_ensures(service_main, (events, args, false), exit),
            !final(handle).spec_open(),
            final(handle).spec_reports() == old(handle).spec_reports().push(
                bridge::start_pending_report(),
            ).push(bridge::stopped_report(exit)),
    {
        bridge::run_service(service_main, events, args, handle)
    }
}

} // verus!
