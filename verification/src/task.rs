//! The static task description: named blocks of actions plus the shared
//! configuration. File reading and deserialization happen outside; the
//! validation and the accessors are verified.

use vstd::prelude::*;
use crate::action::Action;
use crate::config::Config;
use crate::error::Error;

verus! {

/// One experiment block: a unique label and the action tree it runs.
#[derive(Debug, PartialEq)]
pub struct Block {
    pub label: String,
    pub tree: Action,
}

impl Block {
    pub fn new(label: String, tree: Action) -> (r: Block)
        ensures
            r.label == label,
            r.tree == tree,
    {
        Block { label, tree }
    }

    pub fn label(&self) -> (r: &String)
        ensures
            r@ == self.label@,
    {
        &self.label
    }

    pub fn action_tree(&self) -> (r: &Action)
        ensures
            r == &self.tree,
    {
        &self.tree
    }

    /// The configuration the block runs under; blocks carry no overrides
    /// in this model, so the task's configuration applies.
    pub fn config(&self, parent: &Config) -> (r: Config)
        ensures
            r == *parent,
    {
        *parent
    }
}

/// The whole task: its identity, its blocks, and the shared configuration.
#[derive(Debug, PartialEq)]
pub struct Task {
    name: String,
    version: String,
    blocks: Vec<Block>,
    config: Config,
    description: String,
}

impl Task {
    pub closed spec fn name_spec(&self) -> Seq<char> {
        self.name@
    }

    pub closed spec fn version_spec(&self) -> Seq<char> {
        self.version@
    }

    pub closed spec fn blocks_spec(&self) -> Seq<Block> {
        self.blocks@
    }

    pub closed spec fn config_spec(&self) -> Config {
        self.config
    }

    pub closed spec fn description_spec(&self) -> Seq<char> {
        self.description@
    }

    /// The block labels, in order.
    pub open spec fn labels_spec(&self) -> Seq<Seq<char>> {
        self.blocks_spec().map_values(|b: Block| b.label@)
    }

    /// Whether two blocks share a label.
    pub open spec fn has_duplicate_labels(&self) -> bool {
        exists|i: int, j: int|
            0 <= i < j < self.labels_spec().len() && self.labels_spec()[i]
                == self.labels_spec()[j]
    }

    /// Whether every block's action tree passes its static validation.
    pub open spec fn blocks_valid(&self) -> bool {
        forall|i: int|
            0 <= i < self.blocks_spec().len() ==> (#[trigger] self.blocks_spec()[i]).tree.init_ok()
    }

    pub fn new(
        name: String,
        version: String,
        blocks: Vec<Block>,
        config: Config,
        description: String,
    ) -> (r: Task)
        ensures
            r.name_spec() == name@,
            r.version_spec() == version@,
            r.blocks_spec() == blocks@,
            r.config_spec() == config,
            r.description_spec() == description@,
    {
        Task { name, version, blocks, config, description }
    }

    /// Validates the task once its parts are assembled: every block's
    /// action tree must pass its own static validation, block labels must
    /// be unique, and an empty description is filled from the fallback the
    /// caller read beside the task (or the task is rejected when there is
    /// none).
    pub fn init(self, fallback_description: Option<String>) -> (r: Result<Task, Error>)
        ensures
            !self.blocks_valid() ==> (r matches Err(e) && e is TaskDefinitionError),
            self.blocks_valid() && self.has_duplicate_labels() ==> (r matches Err(e)
                && e is InvalidNameError),
            self.blocks_valid() && !self.has_duplicate_labels() && self.description_spec().len()
                > 0 ==> r == Ok::<Task, Error>(self),
            self.blocks_valid() && !self.has_duplicate_labels() && self.description_spec().len()
                == 0 ==> match fallback_description {
                Some(d) => r matches Ok(t) && t.name_spec() == self.name_spec()
                    && t.version_spec() == self.version_spec() && t.blocks_spec()
                    == self.blocks_spec() && t.config_spec() == self.config_spec()
                    && t.description_spec() == d@,
                None => r matches Err(e) && e is TaskDefinitionError,
            },
    {
        let n = self.blocks.len();
        let mut i: usize = 0;
        while i < n
            invariant
                n == self.blocks@.len(),
                0 <= i <= n,
                forall|j: int| 0 <= j < i ==> (#[trigger] self.blocks@[j]).tree.init_ok(),
            decreases n - i,
        {
            match self.blocks[i].tree.init() {
                Ok(()) => {},
                Err(e) => {
                    return Err(e);
                },
            }
            i += 1;
        }
        let mut i: usize = 0;
        while i < n
            invariant
                n == self.blocks@.len(),
                0 <= i <= n,
                forall|j: int| 0 <= j < n ==> (#[trigger] self.blocks@[j]).tree.init_ok(),
                forall|a: int, b: int|
                    0 <= a < b < n && a < i ==> self.labels_spec()[a] != self.labels_spec()[b],
            decreases n - i,
        {
            let mut j: usize = i + 1;
            while j < n
                invariant
                    n == self.blocks@.len(),
                    0 <= i < n,
                    i + 1 <= j <= n,
                    forall|t: int| 0 <= t < n ==> (#[trigger] self.blocks@[t]).tree.init_ok(),
                    forall|b: int| i < b < j ==> self.labels_spec()[i as int]
                        != self.labels_spec()[b],
                decreases n - j,
            {
                if self.blocks[i].label == self.blocks[j].label {
                    proof {
                        assert(self.labels_spec()[i as int] == self.labels_spec()[j as int]);
                    }
                    return Err(
                        Error::InvalidNameError(
                            String::from_str("Block names have to be unique within a task"),
                        ),
                    );
                }
                j += 1;
            }
            i += 1;
        }
        if self.description.as_str().unicode_len() == 0 {
            match fallback_description {
                Some(d) => Ok(
                    Task {
                        name: self.name,
                        version: self.version,
                        blocks: self.blocks,
                        config: self.config,
                        description: d,
                    },
                ),
                None => Err(
                    Error::TaskDefinitionError(
                        String::from_str("Unable to open task description file"),
                    ),
                ),
            }
        } else {
            Ok(self)
        }
    }

    pub fn name(&self) -> (r: &String)
        ensures
            r@ == self.name_spec(),
    {
        &self.name
    }

    pub fn version(&self) -> (r: &String)
        ensures
            r@ == self.version_spec(),
    {
        &self.version
    }

    /// The window title: the task's name with its version in parentheses.
    pub fn title(&self) -> (r: String)
        ensures
            r@ == self.name_spec() + " ("@ + self.version_spec() + ")"@,
    {
        let mut r = self.name.clone();
        r.append(" (");
        r.append(self.version.as_str());
        r.append(")");
        r
    }

    pub fn config(&self) -> (r: &Config)
        ensures
            *r == self.config_spec(),
    {
        &self.config
    }

    pub fn block(&self, i: usize) -> (r: &Block)
        requires
            i < self.blocks_spec().len(),
        ensures
            *r == self.blocks_spec()[i as int],
    {
        &self.blocks[i]
    }

    /// The labels of the blocks, in order.
    pub fn block_labels(&self) -> (r: Vec<String>)
        ensures
            r@.map_values(|s: String| s@) == self.labels_spec(),
    {
        let n = self.blocks.len();
        let mut labels: Vec<String> = Vec::new();
        let mut i: usize = 0;
        while i < n
            invariant
                n == self.blocks@.len(),
                0 <= i <= n,
                labels@.len() == i,
                forall|j: int| 0 <= j < i ==> labels@[j]@ == self.labels_spec()[j],
            decreases n - i,
        {
            labels.push(self.blocks[i].label.clone());
            i += 1;
        }
        proof {
            assert(labels@.map_values(|s: String| s@) =~= self.labels_spec());
        }
        labels
    }

    pub fn description(&self) -> (r: &str)
        ensures
            r@ == self.description_spec(),
    {
        self.description.as_str()
    }
}

} // verus!
