use vstd::prelude::*;
use crate::models::{Album, Invitation, Photo, PhotoSelection, Timestamp, User};

verus! {

/// One value of a result row.
#[derive(Clone, Debug, PartialEq, Eq)]
pub enum Value {
    Int(i32),
    Text(String),
    Time(Timestamp),
    Bool(bool),
    Null,
}

/// A named column of a result row.
#[derive(Clone, Debug, PartialEq, Eq)]
pub struct Column {
    pub name: String,
    pub value: Value,
}

/// A result row of the relational store, whatever the order of its columns.
#[derive(Clone, Debug, PartialEq, Eq)]
pub struct Row {
    pub columns: Vec<Column>,
}

/// Why a row could not be read as an entity; each names the column.
#[derive(Clone, Debug, PartialEq, Eq)]
pub enum RowError {
    ColumnNotFound(String),
    ColumnType(String),
}

/// The value of the first column named `name`.
pub open spec fn column_value(cols: Seq<Column>, name: Seq<char>) -> Option<Value>
    decreases cols.len(),
{
    if cols.len() == 0 {
        None
    } else {
        match column_value(cols.drop_last(), name) {
            Some(v) => Some(v),
            None => if cols.last().name@ == name {
                Some(cols.last().value)
            } else {
                None
            },
        }
    }
}

pub open spec fn int_col(row: Row, name: Seq<char>) -> Option<i32> {
    match column_value(row.columns@, name) {
        Some(Value::Int(v)) => Some(v),
        _ => None,
    }
}

pub open spec fn text_col(row: Row, name: Seq<char>) -> Option<String> {
    match column_value(row.columns@, name) {
        Some(Value::Text(v)) => Some(v),
        _ => None,
    }
}

pub open spec fn time_col(row: Row, name: Seq<char>) -> Option<Timestamp> {
    match column_value(row.columns@, name) {
        Some(Value::Time(v)) => Some(v),
        _ => None,
    }
}

/// How reading column `name` of a row fails, when it does.
pub open spec fn column_error(r: Result<(), RowError>, row: Row, name: Seq<char>) -> bool {
    match column_value(row.columns@, name) {
        None => r matches Err(RowError::ColumnNotFound(n)) && n@ == name,
        Some(_) => r matches Err(RowError::ColumnType(n)) && n@ == name,
    }
}

pub open spec fn unit_of<T>(r: Result<T, RowError>) -> Result<(), RowError> {
    match r {
        Ok(_) => Ok(()),
        Err(e) => Err(e),
    }
}

impl Row {
    /// The index of the first column named `name`.
    fn find(&self, name: &str) -> (r: Option<usize>)
        ensures
            match r {
                None => column_value(self.columns@, name@) is None,
                Some(k) => k < self.columns@.len() && column_value(self.columns@, name@) == Some(
                    self.columns@[k as int].value,
                ),
            },
    {
        let target = name.to_string();
        proof {
            vstd::string::to_string_from_display_ensures_for_str(name, target);
        }
        let mut i: usize = 0;
        while i < self.columns.len()
            invariant
                i <= self.columns@.len(),
                target@ == name@,
                column_value(self.columns@.take(i as int), name@) is None,
            decreases self.columns@.len() - i,
        {
            assert(self.columns@.take(i + 1).drop_last() =~= self.columns@.take(i as int));
            if self.columns[i].name == target {
                proof {
                    self.lemma_prefix_decides(i as int + 1, name@);
                }
                return Some(i);
            }
            i = i + 1;
        }
        assert(self.columns@.take(i as int) =~= self.columns@);
        None
    }

    proof fn lemma_prefix_decides(&self, k: int, name: Seq<char>)
        requires
            0 <= k <= self.columns@.len(),
            column_value(self.columns@.take(k), name) is Some,
        ensures
            column_value(self.columns@, name) == column_value(self.columns@.take(k), name),
        decreases self.columns@.len() - k,
    {
        if k < self.columns@.len() {
            assert(self.columns@.take(k + 1).drop_last() =~= self.columns@.take(k));
            self.lemma_prefix_decides(k + 1, name);
        } else {
            assert(self.columns@.take(k) =~= self.columns@);
        }
    }

    /// Reads an integer column.
    pub fn try_get_int(&self, name: &str) -> (r: Result<i32, RowError>)
        ensures
            int_col(*self, name@) matches Some(v) ==> r == Ok::<i32, RowError>(v),
            int_col(*self, name@) is None ==> column_error(unit_of(r), *self, name@),
    {
        match self.find(name) {
            None => Err(RowError::ColumnNotFound(name.to_owned())),
            Some(k) => match &self.columns[k].value {
                Value::Int(v) => Ok(*v),
                _ => Err(RowError::ColumnType(name.to_owned())),
            },
        }
    }

    /// Reads a text column.
    pub fn try_get_text(&self, name: &str) -> (r: Result<String, RowError>)
        ensures
            text_col(*self, name@) matches Some(v) ==> r == Ok::<String, RowError>(v),
            text_col(*self, name@) is None ==> column_error(unit_of(r), *self, name@),
    {
        match self.find(name) {
            None => Err(RowError::ColumnNotFound(name.to_owned())),
            Some(k) => match &self.columns[k].value {
                Value::Text(v) => Ok(v.clone()),
                _ => Err(RowError::ColumnType(name.to_owned())),
            },
        }
    }

    /// Reads a timestamp column.
    pub fn try_get_time(&self, name: &str) -> (r: Result<Timestamp, RowError>)
        ensures
            time_col(*self, name@) matches Some(v) ==> r == Ok::<Timestamp, RowError>(v),
            time_col(*self, name@) is None ==> column_error(unit_of(r), *self, name@),
    {
        match self.find(name) {
            None => Err(RowError::ColumnNotFound(name.to_owned())),
            Some(k) => match &self.columns[k].value {
                Value::Time(v) => Ok(*v),
                _ => Err(RowError::ColumnType(name.to_owned())),
            },
        }
    }
}

pub open spec fn user_of(row: Row) -> Option<User> {
    match (
        int_col(row, "user_id"@),
        text_col(row, "username"@),
        text_col(row, "email"@),
        text_col(row, "password_hash"@),
        time_col(row, "created_at"@),
    ) {
        (Some(user_id), Some(username), Some(email), Some(password_hash), Some(created_at)) => Some(
            User { user_id, username, email, password_hash, created_at },
        ),
        _ => None,
    }
}

pub open spec fn album_of(row: Row) -> Option<Album> {
    match (
        int_col(row, "album_id"@),
        int_col(row, "photographer_id"@),
        text_col(row, "name"@),
        time_col(row, "created_at"@),
    ) {
        (Some(album_id), Some(photographer_id), Some(name), Some(created_at)) => Some(
            Album { album_id, photographer_id, name, created_at },
        ),
        _ => None,
    }
}

pub open spec fn photo_of(row: Row) -> Option<Photo> {
    match (
        int_col(row, "photo_id"@),
        int_col(row, "album_id"@),
        text_col(row, "s3_path"@),
        time_col(row, "uploaded_at"@),
    ) {
        (Some(photo_id), Some(album_id), Some(s3_path), Some(uploaded_at)) => Some(
            Photo { photo_id, album_id, s3_path, uploaded_at },
        ),
        _ => None,
    }
}

pub open spec fn invitation_of(row: Row) -> Option<Invitation> {
    match (
        int_col(row, "invitation_id"@),
        int_col(row, "album_id"@),
        int_col(row, "client_id"@),
        int_col(row, "photographer_id"@),
        text_col(row, "invite_token"@),
        time_col(row, "created_at"@),
    ) {
        (
            Some(invitation_id),
            Some(album_id),
            Some(client_id),
            Some(photographer_id),
            Some(invite_token),
            Some(created_at),
        ) => Some(
            Invitation {
                invitation_id,
                album_id,
                client_id,
                photographer_id,
                invite_token,
                created_at,
            },
        ),
        _ => None,
    }
}

pub open spec fn selection_of(row: Row) -> Option<PhotoSelection> {
    match (
        int_col(row, "selection_id"@),
        int_col(row, "photo_id"@),
        int_col(row, "album_id"@),
        int_col(row, "client_id"@),
        time_col(row, "confirmed_at"@),
    ) {
        (Some(selection_id), Some(photo_id), Some(album_id), Some(client_id), Some(confirmed_at)) => Some(
            PhotoSelection { selection_id, photo_id, album_id, client_id, confirmed_at },
        ),
        _ => None,
    }
}

impl User {
    /// Reads a user from a row by column name.
    pub fn from_row(row: &Row) -> (r: Result<User, RowError>)
        ensures
            user_of(*row) matches Some(u) ==> r == Ok::<User, RowError>(u),
            user_of(*row) is None ==> r is Err,
    {
        Ok(User {
            user_id: row.try_get_int("user_id")?,
            username: row.try_get_text("username")?,
            email: row.try_get_text("email")?,
            password_hash: row.try_get_text("password_hash")?,
            created_at: row.try_get_time("created_at")?,
        })
    }
}

impl Album {
    /// Reads an album from a row by column name.
    pub fn from_row(row: &Row) -> (r: Result<Album, RowError>)
        ensures
            album_of(*row) matches Some(a) ==> r == Ok::<Album, RowError>(a),
            album_of(*row) is None ==> r is Err,
    {
        Ok(Album {
            album_id: row.try_get_int("album_id")?,
            photographer_id: row.try_get_int("photographer_id")?,
            name: row.try_get_text("name")?,
            created_at: row.try_get_time("created_at")?,
        })
    }
}

impl Photo {
    /// Reads a photo from a row by column name.
    pub fn from_row(row: &Row) -> (r: Result<Photo, RowError>)
        ensures
            photo_of(*row) matches Some(p) ==> r == Ok::<Photo, RowError>(p),
            photo_of(*row) is None ==> r is Err,
    {
        Ok(Photo {
            photo_id: row.try_get_int("photo_id")?,
            album_id: row.try_get_int("album_id")?,
            s3_path: row.try_get_text("s3_path")?,
            uploaded_at: row.try_get_time("uploaded_at")?,
        })
    }
}

impl Invitation {
    /// Reads an invitation from a row by column name.
    pub fn from_row(row: &Row) -> (r: Result<Invitation, RowError>)
        ensures
            invitation_of(*row) matches Some(i) ==> r == Ok::<Invitation, RowError>(i),
            invitation_of(*row) is None ==> r is Err,
    {
        Ok(Invitation {
            invitation_id: row.try_get_int("invitation_id")?,
            album_id: row.try_get_int("album_id")?,
            client_id: row.try_get_int("client_id")?,
            photographer_id: row.try_get_int("photographer_id")?,
            invite_token: row.try_get_text("invite_token")?,
            created_at: row.try_get_time("created_at")?,
        })
    }
}

impl PhotoSelection {
    /// Reads a selection, joined with its photo's album, from a row by column
    /// name.
    pub fn from_row(row: &Row) -> (r: Result<PhotoSelection, RowError>)
        ensures
            selection_of(*row) matches Some(s) ==> r == Ok::<PhotoSelection, RowError>(s),
            selection_of(*row) is None ==> r is Err,
    {
        Ok(PhotoSelection {
            selection_id: row.try_get_int("selection_id")?,
            photo_id: row.try_get_int("photo_id")?,
            album_id: row.try_get_int("album_id")?,
            client_id: row.try_get_int("client_id")?,
            confirmed_at: row.try_get_time("confirmed_at")?,
        })
    }
}

} // verus!
