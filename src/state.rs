//! The shared connection record: empty at process start, filled once by
//! start-up, read by every command afterwards.

use vstd::prelude::*;
use crate::text::{concat, contains, has_substring};

verus! {

/// Why a command could not use the database.
pub enum DbError {
    /// Start-up has not published a connection (yet, or it failed).
    NotInitialized,
    /// A manual sync was asked for while no database is held.
    SyncNotInitialized,
    /// A manual sync was asked of a database opened without cloud sync.
    SyncNotConfigured,
    /// The engine's sync failed, with its message.
    SyncFailed(String),
}

/// The engine's sync message says that the database was not opened for sync.
pub open spec fn sync_unavailable_message(m: Seq<char>) -> bool {
    has_substring(m, "File mode"@) || has_substring(m, "not supported"@)
}

/// What a manual sync reports, given whether a database is held and what
/// the engine's sync returned.
pub open spec fn sync_verdict(has_db: bool, engine: Result<(), Seq<char>>) -> Result<
    (),
    DbErrorView,
> {
    if !has_db {
        Err(DbErrorView::SyncNotInitialized)
    } else {
        match engine {
            Ok(()) => Ok(()),
            Err(m) => if sync_unavailable_message(m) {
                Err(DbErrorView::SyncNotConfigured)
            } else {
                Err(DbErrorView::SyncFailed(m))
            },
        }
    }
}

/// A `DbError`, over character sequences.
pub enum DbErrorView {
    NotInitialized,
    SyncNotInitialized,
    SyncNotConfigured,
    SyncFailed(Seq<char>),
}

impl View for DbError {
    type V = DbErrorView;

    open spec fn view(&self) -> DbErrorView {
        match self {
            DbError::NotInitialized => DbErrorView::NotInitialized,
            DbError::SyncNotInitialized => DbErrorView::SyncNotInitialized,
            DbError::SyncNotConfigured => DbErrorView::SyncNotConfigured,
            DbError::SyncFailed(m) => DbErrorView::SyncFailed(m@),
        }
    }
}

impl DbError {
    /// A description of the error for the user.
    pub fn message(&self) -> (r: String)
        ensures
            r@ == match self@ {
                DbErrorView::NotInitialized => "Database not initialized"@,
                DbErrorView::SyncNotInitialized => "数据库未初始化"@,
                DbErrorView::SyncNotConfigured => "云同步未启用。请先配置云同步并重启应用。"@,
                DbErrorView::SyncFailed(m) => "同步失败: "@ + m,
            },
    {
        match self {
            DbError::NotInitialized => String::from_str("Database not initialized"),
            DbError::SyncNotInitialized => String::from_str("数据库未初始化"),
            DbError::SyncNotConfigured => String::from_str("云同步未启用。请先配置云同步并重启应用。"),
            DbError::SyncFailed(m) => concat("同步失败: ", m.as_str()),
        }
    }
}

/// The live database and connection handles, and what start-up decided on
/// cloud sync. `D` is the engine's database handle, `C` its connection.
pub struct DbState<D, C> {
    db: Option<D>,
    conn: Option<C>,
    is_sync_enabled: bool,
    sync_url: String,
}

impl<D, C> DbState<D, C> {
    /// The database handle held, if any.
    pub closed spec fn database_spec(&self) -> Option<D> {
        self.db
    }

    /// The connection handle held, if any.
    pub closed spec fn connection_spec(&self) -> Option<C> {
        self.conn
    }

    /// Whether cloud sync is live for this session.
    pub closed spec fn sync_enabled_spec(&self) -> bool {
        self.is_sync_enabled
    }

    /// The URL of the remote replica, empty without cloud sync.
    pub closed spec fn sync_url_spec(&self) -> Seq<char> {
        self.sync_url@
    }

    /// The empty record of process start: no handles, cloud sync off.
    pub fn new() -> (r: Self)
        ensures
            r.database_spec() is None,
            r.connection_spec() is None,
            !r.sync_enabled_spec(),
            r.sync_url_spec() == Seq::<char>::empty(),
    {
        DbState { db: None, conn: None, is_sync_enabled: false, sync_url: String::new() }
    }

    /// Whether cloud sync is live for this session.
    pub fn is_cloud_sync_enabled(&self) -> (r: bool)
        ensures
            r == self.sync_enabled_spec(),
    {
        self.is_sync_enabled
    }

    /// Records what start-up decided on cloud sync.
    pub fn set_sync_config(&mut self, enabled: bool, url: String)
        ensures
            final(self).sync_enabled_spec() == enabled,
            final(self).sync_url_spec() == url@,
            final(self).database_spec() == old(self).database_spec(),
            final(self).connection_spec() == old(self).connection_spec(),
    {
        self.is_sync_enabled = enabled;
        self.sync_url = url;
    }

    /// The URL of the remote replica, empty without cloud sync.
    pub fn get_sync_url(&self) -> (r: String)
        ensures
            r@ == self.sync_url_spec(),
    {
        self.sync_url.clone()
    }

    /// The live connection, or `NotInitialized` before start-up published one.
    pub fn get_connection(&self) -> (r: Result<&C, DbError>)
        ensures
            self.connection_spec() is None <==> r matches Err(DbError::NotInitialized),
            r matches Ok(c) ==> self.connection_spec() == Some(*c),
            r is Err ==> r matches Err(DbError::NotInitialized),
    {
        match &self.conn {
            Some(c) => Ok(c),
            None => Err(DbError::NotInitialized),
        }
    }

    /// The live database handle, if any.
    pub fn database(&self) -> (r: Option<&D>)
        ensures
            r matches Some(d) ==> self.database_spec() == Some(*d),
            r is None <==> self.database_spec() is None,
    {
        match &self.db {
            Some(d) => Some(d),
            None => None,
        }
    }

    /// Publishes the handles that start-up produced.
    pub fn install(&mut self, db: D, conn: C)
        ensures
            final(self).database_spec() == Some(db),
            final(self).connection_spec() == Some(conn),
            final(self).sync_enabled_spec() == old(self).sync_enabled_spec(),
            final(self).sync_url_spec() == old(self).sync_url_spec(),
    {
        self.db = Some(db);
        self.conn = Some(conn);
    }

    /// The outcome of a manual sync, given what the engine's sync of the held
    /// database returned (ignored when no database is held).
    pub fn sync(&self, engine: Result<(), String>) -> (r: Result<(), DbError>)
        ensures
            match r {
                Ok(()) => sync_verdict(
                    self.database_spec() is Some,
                    match engine {
                        Ok(()) => Ok(()),
                        Err(m) => Err(m@),
                    },
                ) is Ok,
                Err(e) => sync_verdict(
                    self.database_spec() is Some,
                    match engine {
                        Ok(()) => Ok(()),
                        Err(m) => Err(m@),
                    },
                ) == Err::<(), DbErrorView>(e@),
            },
    {
        if self.db.is_none() {
            return Err(DbError::SyncNotInitialized);
        }
        match engine {
            Ok(()) => Ok(()),
            Err(m) => {
                if contains(m.as_str(), "File mode") || contains(m.as_str(), "not supported") {
                    Err(DbError::SyncNotConfigured)
                } else {
                    Err(DbError::SyncFailed(m))
                }
            },
        }
    }

    /// Drops both handles; the record answers `NotInitialized` afterwards.
    pub fn close(&mut self)
        ensures
            final(self).database_spec() is None,
            final(self).connection_spec() is None,
            final(self).sync_enabled_spec() == old(self).sync_enabled_spec(),
            final(self).sync_url_spec() == old(self).sync_url_spec(),
    {
        self.conn = None;
        self.db = None;
    }
}

} // verus!
