//! Where the data of the task list is kept: the file of a store kept
//! without workspaces, and the file of the workspace manager.
//!
//! Reading and writing the files is left to the program that uses this
//! library; the library only keeps the two locations apart.

use vstd::prelude::*;

verus! {

/// The directory, under the data directory of the user, that holds the files.
pub const DATA_DIRECTORY_NAME: &'static str = "paperclip";

/// The name of the file of a store kept without workspaces.
pub const DATA_FILE_NAME: &'static str = "todos.json";

/// The name of the file of the workspace manager.
pub const WORKSPACE_FILE_NAME: &'static str = "workspaces.json";

/// The two files in which the data is kept.
pub struct Storage {
    data_file: String,
    workspace_file: String,
}

/// The mathematical content of a [`Storage`].
pub struct StorageView {
    pub data_file: Seq<char>,
    pub workspace_file: Seq<char>,
}

impl View for Storage {
    type V = StorageView;

    closed spec fn view(&self) -> StorageView {
        StorageView { data_file: self.data_file@, workspace_file: self.workspace_file@ }
    }
}

impl Storage {
    /// A storage with the two files at the given paths.
    pub fn new(data_file: String, workspace_file: String) -> (storage: Storage)
        ensures
            storage@.data_file == data_file@,
            storage@.workspace_file == workspace_file@,
    {
        Storage { data_file, workspace_file }
    }

    /// The path of the file of a store kept without workspaces.
    pub fn get_data_file_path(&self) -> (path: &str)
        ensures
            path@ == self@.data_file,
    {
        self.data_file.as_str()
    }

    /// The path of the file of the workspace manager.
    pub fn get_workspace_file_path(&self) -> (path: &str)
        ensures
            path@ == self@.workspace_file,
    {
        self.workspace_file.as_str()
    }
}

} // verus!
