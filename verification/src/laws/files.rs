//! Which files a node opens and deletes: tapes by their directory and name, and keyspaces.

use vstd::prelude::*;

use crate::activation::DeleteUnnecessaryTapes;
use crate::laws::requests::{lemma_each_keyspace_is_opened_once, stripe_is_kept};
use crate::layout::{
    chain_keyspaces, common_tapes, default_keyspace_options, first_tape, keeps_tape, keyspace_name,
    lemma_first_tape, lemma_keyspace_names_differ, lemma_tape_names_differ,
    options_of_prunable_tip, options_of_tape, tape_name, Config, Keyspace, Tape, TapeDir,
    CHAIN_KEYSPACES, COMMON_TAPES, PRUNABLE_TAPES,
};
use crate::opening::{seed_of_bytes, OpenDatabase, OpenStage};
use crate::operation::{after, lemma_run_keeps, run, Operation, StorageModel};
use crate::request::{Action, Reply, Request};
use crate::state::BlockchainDatabase;

verus! {

/// The files that there are, whatever is in them, and whatever the storage answers.
pub struct Files {
    /// The tapes, by the directory that they are in and their names.
    pub tapes: Set<(TapeDir, Seq<char>)>,
    /// The keyspaces, by their names.
    pub keyspaces: Set<Seq<char>>,
}

impl StorageModel for Files {
    /// The storage may answer anything.
    open spec fn answers(self, request: Request, reply: Reply) -> bool {
        true
    }

    open spec fn performed(self, request: Request) -> Self {
        match request {
            Request::OpenTape { tape, options } => Files {
                tapes: self.tapes.insert((options.dir, tape_name(tape))),
                ..self
            },
            Request::DeleteTape { tape, options } => Files {
                tapes: self.tapes.remove((options.dir, tape_name(tape))),
                ..self
            },
            Request::OpenKeyspace { keyspace, .. } => Files {
                keyspaces: self.keyspaces.insert(keyspace_name(keyspace)),
                ..self
            },
            _ => self,
        }
    }
}

/// A tape that a node may have.
pub open spec fn is_tape(tape: Tape) -> bool {
    tape matches Tape::Prunable(index) ==> index < 8
}

/// The directory that a tape is in and its name. What is looked up by number is below the index
/// directory, and what is read as a whole below the blob directory.
pub open spec fn file_of(tape: Tape) -> (TapeDir, Seq<char>) {
    match tape {
        Tape::RctOutputs => (TapeDir::Index, "rct_outputs"@),
        Tape::TxInfos => (TapeDir::Index, "tx_infos"@),
        Tape::BlockInfos => (TapeDir::Index, "block_infos"@),
        Tape::TapesMetadata => (TapeDir::Index, "tapes_metadata"@),
        Tape::PrunedBlobs => (TapeDir::Blob, "pruned_blobs"@),
        Tape::V1PrunableBlobs => (TapeDir::Blob, "v1_prunable_blobs"@),
        Tape::Prunable(index) => (TapeDir::Blob, prunable_name(index)),
    }
}

/// The name of a prunable tape: `prunable`, and the number of its stripe, counted from one.
pub open spec fn prunable_name(index: usize) -> Seq<char> {
    "prunable"@.push(('1' as u32 + index) as char)
}

/// Every tape is asked for under its directory and its name.
pub proof fn lemma_file_of_tape(config: Config, tape: Tape)
    requires
        is_tape(tape),
    ensures
        (options_of_tape(tape, config.cache_sizes).dir, tape_name(tape)) == file_of(tape),
{
    reveal_strlit("prunable");
    reveal_strlit("prunable1");
    reveal_strlit("prunable2");
    reveal_strlit("prunable3");
    reveal_strlit("prunable4");
    reveal_strlit("prunable5");
    reveal_strlit("prunable6");
    reveal_strlit("prunable7");
    reveal_strlit("prunable8");
    match tape {
        Tape::Prunable(index) => {
            assert(tape_name(tape) =~= prunable_name(index));
        },
        _ => {},
    }
}

/// No two tapes are in one file.
pub proof fn lemma_files_differ(a: Tape, b: Tape)
    requires
        is_tape(a),
        is_tape(b),
        a != b,
    ensures
        file_of(a) != file_of(b),
{
    let config = arbitrary::<Config>();
    lemma_file_of_tape(config, a);
    lemma_file_of_tape(config, b);
    lemma_tape_names_differ(a, b);
}

/// The file of a tape is there if it was, or if it was opened, and not if it was deleted.
spec fn tape_files(
    before: Files,
    now: Files,
    opened: spec_fn(Tape) -> bool,
    deleted: spec_fn(Tape) -> bool,
) -> bool {
    &&& forall|tape: Tape|
        is_tape(tape) ==> (now.tapes.contains(#[trigger] file_of(tape)) <==> !deleted(tape) && (
        opened(tape) || before.tapes.contains(file_of(tape))))
    &&& forall|file: (TapeDir, Seq<char>)|
        (forall|tape: Tape| is_tape(tape) ==> #[trigger] file_of(tape) != file) ==> (
        #[trigger] now.tapes.contains(file) <==> before.tapes.contains(file))
}

/// The tapes that every node opens are opened, up to an index of them.
spec fn common_below(below: int) -> spec_fn(Tape) -> bool {
    |tape: Tape|
        exists|index: int|
            0 <= index < below && index < COMMON_TAPES && #[trigger] common_tapes()[index] == tape
}

/// The tapes that every node opens are opened, and the prunable ones that the seed keeps, up to an
/// index.
spec fn opened_below(open: OpenDatabase, below: int) -> spec_fn(Tape) -> bool {
    |tape: Tape|
        match tape {
            Tape::Prunable(index) => index < below && stripe_is_kept(open.seed, index),
            _ => true,
        }
}

/// The prunable tapes that the seed does not keep are deleted, up to an index.
spec fn deleted_below(open: OpenDatabase, below: int) -> spec_fn(Tape) -> bool {
    |tape: Tape|
        match tape {
            Tape::Prunable(index) => index < below && !stripe_is_kept(open.seed, index),
            _ => false,
        }
}

/// The keyspaces that every node opens are opened, up to an index of them, and `prunable_tip` if
/// `tip` says so.
spec fn keyspace_files(before: Files, now: Files, below: int, tip: bool) -> bool {
    forall|name: Seq<char>| #[trigger]
        now.keyspaces.contains(name) <==> {
            ||| before.keyspaces.contains(name)
            ||| exists|index: int|
                0 <= index < below && index < CHAIN_KEYSPACES && name == keyspace_name(
                    #[trigger] chain_keyspaces()[index],
                )
            ||| tip && name == keyspace_name(Keyspace::PrunableTip)
        }
}

/// What holds of the files, and of the opening, wherever the opening waits and where it succeeds.
spec fn open_files(
    config: Config,
    before: Files,
    now: Files,
    open: OpenDatabase,
    action: Action<BlockchainDatabase>,
) -> bool {
    let none = |tape: Tape| false;
    let all = CHAIN_KEYSPACES as int;
    &&& open.config == config
    &&& match open.stage {
        OpenStage::Keyspace(index) => {
            &&& !open.prunable_tip
            &&& index < CHAIN_KEYSPACES
            &&& tape_files(before, now, none, none)
            &&& keyspace_files(before, now, index as int, false)
            &&& action == Action::<BlockchainDatabase>::Perform(
                Request::OpenKeyspace {
                    keyspace: chain_keyspaces()[index as int],
                    options: default_keyspace_options(),
                },
            )
        },
        OpenStage::TipExists => {
            &&& !open.prunable_tip
            &&& tape_files(before, now, none, none)
            &&& keyspace_files(before, now, all, false)
            &&& action matches Action::Perform(Request::KeyspaceExists { .. })
        },
        OpenStage::Tip => {
            &&& !open.prunable_tip
            &&& tape_files(before, now, none, none)
            &&& keyspace_files(before, now, all, false)
            &&& action == Action::<BlockchainDatabase>::Perform(
                Request::OpenKeyspace {
                    keyspace: Keyspace::PrunableTip,
                    options: options_of_prunable_tip(),
                },
            )
        },
        OpenStage::Tapes => {
            &&& tape_files(before, now, none, none)
            &&& keyspace_files(before, now, all, open.prunable_tip)
            &&& action matches Action::Perform(Request::OpenTapes { .. })
        },
        OpenStage::Begin => {
            &&& tape_files(before, now, none, none)
            &&& keyspace_files(before, now, all, open.prunable_tip)
            &&& action == Action::<BlockchainDatabase>::Perform(Request::BeginAppend)
        },
        OpenStage::Tape(index) => {
            &&& index < COMMON_TAPES
            &&& tape_files(before, now, common_below(index as int), none)
            &&& keyspace_files(before, now, all, open.prunable_tip)
            &&& action == Action::<BlockchainDatabase>::Perform(
                Request::OpenTape {
                    tape: common_tapes()[index as int],
                    options: options_of_tape(common_tapes()[index as int], config.cache_sizes),
                },
            )
        },
        OpenStage::SeedLen => {
            &&& tape_files(before, now, common_below(COMMON_TAPES as int), none)
            &&& keyspace_files(before, now, all, open.prunable_tip)
            &&& action matches Action::Perform(Request::TapeLen { .. })
        },
        OpenStage::Seed => {
            &&& tape_files(before, now, common_below(COMMON_TAPES as int), none)
            &&& keyspace_files(before, now, all, open.prunable_tip)
            &&& action matches Action::Perform(Request::ReadBytes { .. })
        },
        OpenStage::Prunable(index) => {
            &&& index < PRUNABLE_TAPES
            &&& stripe_is_kept(open.seed, index)
            &&& tape_files(before, now, opened_below(open, index as int), none)
            &&& keyspace_files(before, now, all, open.prunable_tip)
            &&& action == Action::<BlockchainDatabase>::Perform(
                Request::OpenTape {
                    tape: Tape::Prunable(index),
                    options: options_of_tape(Tape::Prunable(index), config.cache_sizes),
                },
            )
        },
        OpenStage::Commit => {
            &&& tape_files(before, now, opened_below(open, 8), none)
            &&& keyspace_files(before, now, all, open.prunable_tip)
            &&& action == Action::<BlockchainDatabase>::Perform(Request::CommitTapes)
        },
        OpenStage::Delete(index) => {
            &&& index < PRUNABLE_TAPES
            &&& !stripe_is_kept(open.seed, index)
            &&& tape_files(
                before,
                now,
                opened_below(open, 8),
                deleted_below(open, index as int),
            )
            &&& keyspace_files(before, now, all, open.prunable_tip)
            &&& action == Action::<BlockchainDatabase>::Perform(
                Request::DeleteTape {
                    tape: Tape::Prunable(index),
                    options: options_of_tape(Tape::Prunable(index), config.cache_sizes),
                },
            )
        },
        OpenStage::Over => {
            &&& action is Finished
            &&& action matches Action::Finished(Ok(db)) ==> {
                &&& db.pruning_seed == open.seed
                &&& db.prunable_tip == open.prunable_tip
                &&& tape_files(before, now, opened_below(open, 8), deleted_below(open, 8))
                &&& keyspace_files(before, now, all, open.prunable_tip)
            }
        },
    }
}

/// To open or delete one tape has a bearing on its own file alone.
proof fn lemma_one_file(config: Config, now: Files, tape: Tape)
    requires
        is_tape(tape),
    ensures
        ({
            let options = options_of_tape(tape, config.cache_sizes);
            let opened = now.performed(Request::OpenTape { tape, options });
            let deleted = now.performed(Request::DeleteTape { tape, options });
            &&& opened.keyspaces == now.keyspaces
            &&& deleted.keyspaces == now.keyspaces
            &&& opened.tapes == now.tapes.insert(file_of(tape))
            &&& deleted.tapes == now.tapes.remove(file_of(tape))
        }),
        forall|other: Tape|
            is_tape(other) && other != tape ==> #[trigger] file_of(other) != file_of(tape),
{
    lemma_file_of_tape(config, tape);
    assert forall|other: Tape| is_tape(other) && other != tape implies #[trigger] file_of(other)
        != file_of(tape) by {
        lemma_files_differ(other, tape);
    }
}

/// Going on with the prunable tapes to open keeps what holds of the files.
proof fn lemma_open_files_from(
    config: Config,
    before: Files,
    now: Files,
    open: OpenDatabase,
    from: int,
)
    requires
        open.config == config,
        0 <= from <= 8,
        tape_files(before, now, opened_below(open, from), |tape: Tape| false),
        keyspace_files(before, now, CHAIN_KEYSPACES as int, open.prunable_tip),
    ensures
        ({
            let (then, action) = open.opening_prunable(from);
            open_files(config, before, now, then, action)
        }),
{
    let index = first_tape(open.seed, true, from);
    lemma_first_tape(open.seed, true, from);
    let (then, _) = open.opening_prunable(from);
    assert forall|tape: Tape| is_tape(tape) implies opened_below(open, from)(tape) == opened_below(
        then,
        index,
    )(tape) by {
        match tape {
            Tape::Prunable(i) => {
                if from <= i < index {
                    assert(!keeps_tape(open.seed, i as int));
                }
            },
            _ => {},
        }
    }
}

/// Going on with the prunable tapes to delete keeps what holds of the files.
proof fn lemma_delete_files_from(
    config: Config,
    before: Files,
    now: Files,
    open: OpenDatabase,
    from: int,
)
    requires
        open.config == config,
        0 <= from <= 8,
        tape_files(before, now, opened_below(open, 8), deleted_below(open, from)),
        keyspace_files(before, now, CHAIN_KEYSPACES as int, open.prunable_tip),
    ensures
        ({
            let (then, action) = open.deleting(from);
            open_files(config, before, now, then, action)
        }),
{
    let index = first_tape(open.seed, false, from);
    lemma_first_tape(open.seed, false, from);
    let (then, _) = open.deleting(from);
    assert forall|tape: Tape| is_tape(tape) implies {
        &&& deleted_below(open, from)(tape) == deleted_below(then, index)(tape)
        &&& opened_below(open, 8)(tape) == opened_below(then, 8)(tape)
    } by {
        match tape {
            Tape::Prunable(i) => {
                if from <= i < index {
                    assert(keeps_tape(open.seed, i as int));
                }
            },
            _ => {},
        }
    }
}

/// Every reply keeps what holds of the files.
proof fn lemma_open_files_step(
    config: Config,
    before: Files,
    now: Files,
    open: OpenDatabase,
    request: Request,
    reply: Reply,
)
    requires
        open_files(config, before, now, open, Action::Perform(request)),
        open.next(reply) is Some,
    ensures
        open_files(
            config,
            before,
            after(now, request, reply),
            (open.next(reply)->0).0,
            (open.next(reply)->0).1,
        ),
{
    let then = after(now, request, reply);
    let none = |tape: Tape| false;
    if !(reply is Failed) {
        match open.stage {
            OpenStage::Keyspace(index) => {
                let opened = chain_keyspaces()[index as int];
                assert forall|name: Seq<char>| #[trigger] then.keyspaces.contains(name) <==> {
                    ||| before.keyspaces.contains(name)
                    ||| exists|i: int|
                        0 <= i < index + 1 && i < CHAIN_KEYSPACES && name == keyspace_name(
                            #[trigger] chain_keyspaces()[i],
                        )
                } by {
                    if name == keyspace_name(opened) {
                        assert(then.keyspaces.contains(name));
                    } else {
                        assert(then.keyspaces.contains(name) == now.keyspaces.contains(name));
                    }
                }
                assert(keyspace_files(before, then, index + 1, false));
            },
            OpenStage::Begin => {
                assert(tape_files(before, then, common_below(0), none));
            },
            OpenStage::Tape(index) => {
                let tape = common_tapes()[index as int];
                assert(!(tape is Prunable));
                lemma_one_file(config, now, tape);
                assert forall|other: Tape| is_tape(other) implies (then.tapes.contains(
                    #[trigger] file_of(other),
                ) <==> common_below(index + 1)(other) || before.tapes.contains(
                    file_of(other),
                )) by {
                    if other == tape {
                        assert(common_tapes()[index as int] == other);
                    } else {
                        assert(common_below(index + 1)(other) == common_below(index as int)(other));
                    }
                }
                assert(tape_files(before, then, common_below(index + 1), none));
            },
            OpenStage::SeedLen => {
                lemma_common_is_opened(before, then, open);
                if open.next(reply) == Some(open.opening_prunable(0)) {
                    lemma_open_files_from(config, before, then, open, 0);
                }
            },
            OpenStage::Seed => {
                match reply {
                    Reply::Bytes(bytes) => {
                        match seed_of_bytes(bytes@) {
                            Some(seed) => {
                                let open2 = OpenDatabase { seed, ..open };
                                lemma_common_is_opened(before, then, open2);
                                lemma_open_files_from(config, before, then, open2, 0);
                            },
                            None => {},
                        }
                    },
                    _ => {},
                }
            },
            OpenStage::Prunable(index) => {
                let tape = Tape::Prunable(index);
                lemma_one_file(config, now, tape);
                assert forall|other: Tape| is_tape(other) implies (then.tapes.contains(
                    #[trigger] file_of(other),
                ) <==> opened_below(open, index + 1)(other) || before.tapes.contains(
                    file_of(other),
                )) by {
                    if other != tape {
                        assert(opened_below(open, index + 1)(other) == opened_below(
                            open,
                            index as int,
                        )(other));
                    }
                }
                assert(tape_files(before, then, opened_below(open, index + 1), none));
                lemma_open_files_from(config, before, then, open, index + 1);
            },
            OpenStage::Commit => {
                assert(tape_files(before, then, opened_below(open, 8), deleted_below(open, 0)));
                lemma_delete_files_from(config, before, then, open, 0);
            },
            OpenStage::Delete(index) => {
                let tape = Tape::Prunable(index);
                lemma_one_file(config, now, tape);
                assert forall|other: Tape| is_tape(other) implies (then.tapes.contains(
                    #[trigger] file_of(other),
                ) <==> !deleted_below(open, index + 1)(other) && (opened_below(open, 8)(other)
                    || before.tapes.contains(file_of(other)))) by {
                    if other != tape {
                        assert(deleted_below(open, index + 1)(other) == deleted_below(
                            open,
                            index as int,
                        )(other));
                    }
                }
                assert(tape_files(
                    before,
                    then,
                    opened_below(open, 8),
                    deleted_below(open, index + 1),
                ));
                lemma_delete_files_from(config, before, then, open, index + 1);
            },
            _ => {},
        }
    }
}

/// Once every tape that every node opens is opened, only the prunable ones are left.
proof fn lemma_common_is_opened(before: Files, now: Files, open: OpenDatabase)
    requires
        tape_files(before, now, common_below(COMMON_TAPES as int), |tape: Tape| false),
    ensures
        tape_files(before, now, opened_below(open, 0), |tape: Tape| false),
{
    assert forall|tape: Tape| is_tape(tape) implies common_below(COMMON_TAPES as int)(tape)
        == opened_below(open, 0)(tape) by {
        let all = common_tapes();
        assert(all[0] == Tape::RctOutputs && all[1] == Tape::TxInfos && all[2] == Tape::BlockInfos
            && all[3] == Tape::TapesMetadata && all[4] == Tape::PrunedBlobs && all[5]
            == Tape::V1PrunableBlobs);
    }
}

/// A database that was opened has the file of every tape that every node has, and of every prunable
/// tape that its seed keeps, each in its own directory and under its own name. It has none of the
/// other prunable tapes. No other file was touched. It has every keyspace, and `prunable_tip` if it
/// knows of one.
pub proof fn lemma_open_has_every_file(config: Config, before: Files, replies: Seq<Reply>)
    ensures
        run(
            before,
            OpenDatabase::started(config).0,
            OpenDatabase::started(config).1,
            replies,
        ) matches Some((now, _, Action::Finished(Ok(db)))) ==> {
            &&& forall|tape: Tape|
                is_tape(tape) && !(tape is Prunable) ==> now.tapes.contains(
                    #[trigger] file_of(tape),
                )
            &&& forall|index: usize|
                index < 8 ==> (now.tapes.contains((TapeDir::Blob, #[trigger] prunable_name(index)))
                    <==> stripe_is_kept(db.pruning_seed, index))
            &&& forall|file: (TapeDir, Seq<char>)|
                (forall|tape: Tape| is_tape(tape) ==> #[trigger] file_of(tape) != file) ==> (
                #[trigger] now.tapes.contains(file) <==> before.tapes.contains(file))
            &&& forall|keyspace: Keyspace|
                keyspace != Keyspace::PrunableTip ==> now.keyspaces.contains(
                    #[trigger] keyspace_name(keyspace),
                )
            &&& db.prunable_tip ==> now.keyspaces.contains(keyspace_name(Keyspace::PrunableTip))
            &&& !db.prunable_tip && !before.keyspaces.contains(keyspace_name(Keyspace::PrunableTip))
                ==> !now.keyspaces.contains(keyspace_name(Keyspace::PrunableTip))
        },
{
    let kept = |now: Files, open: OpenDatabase, action: Action<BlockchainDatabase>|
        open_files(config, before, now, open, action);
    let (open, action) = OpenDatabase::started(config);
    assert forall|s: Files, m: OpenDatabase, request: Request, reply: Reply|
        kept(s, m, Action::Perform(request)) && #[trigger] s.answers(request, reply) && (
        #[trigger] m.next(reply)) is Some implies kept(
        after(s, request, reply),
        (m.next(reply)->0).0,
        (m.next(reply)->0).1,
    ) by {
        lemma_open_files_step(config, before, s, m, request, reply);
    }
    lemma_run_keeps(kept, before, open, action, replies);
    match run(before, open, action, replies) {
        Some((now, m, Action::Finished(Ok(db)))) => {
            assert forall|index: usize| index < 8 implies (now.tapes.contains(
                (TapeDir::Blob, #[trigger] prunable_name(index)),
            ) <==> stripe_is_kept(db.pruning_seed, index)) by {
                assert(file_of(Tape::Prunable(index)) == (TapeDir::Blob, prunable_name(index)));
            }
            assert forall|keyspace: Keyspace|
                keyspace != Keyspace::PrunableTip implies now.keyspaces.contains(
                #[trigger] keyspace_name(keyspace),
            ) by {
                lemma_each_keyspace_is_opened_once(keyspace);
                let index = choose|index: int|
                    0 <= index < chain_keyspaces().len() && chain_keyspaces()[index] == keyspace;
                assert(chain_keyspaces()[index] == keyspace);
            }
            assert forall|index: int| 0 <= index < CHAIN_KEYSPACES implies keyspace_name(
                #[trigger] chain_keyspaces()[index],
            ) != keyspace_name(Keyspace::PrunableTip) by {
                lemma_each_keyspace_is_opened_once(chain_keyspaces()[index]);
                assert(chain_keyspaces().contains(chain_keyspaces()[index]));
                lemma_keyspace_names_differ(chain_keyspaces()[index], Keyspace::PrunableTip);
            }
        },
        _ => {},
    }
}

/// Deleting the tapes that the seed does not keep removes the files of those, each from the
/// directory that it is in, and no other file.
pub proof fn lemma_delete_removes_files(
    db: BlockchainDatabase,
    before: Files,
    replies: Seq<Reply>,
)
    requires
        db.wf(),
    ensures
        run(
            before,
            DeleteUnnecessaryTapes::deleting_from(db, 0).0,
            DeleteUnnecessaryTapes::deleting_from(db, 0).1,
            replies,
        ) matches Some((now, _, action)) ==> {
            &&& now.keyspaces == before.keyspaces
            &&& forall|file: (TapeDir, Seq<char>)| #[trigger]
                now.tapes.contains(file) ==> before.tapes.contains(file)
            &&& forall|file: (TapeDir, Seq<char>)| #[trigger]
                before.tapes.contains(file) && !now.tapes.contains(file) ==> exists|index: usize|
                    index < 8 && !stripe_is_kept(db.pruning_seed, index) && file == (
                        TapeDir::Blob,
                        #[trigger] prunable_name(index),
                    )
            &&& action matches Action::Finished(Ok(_)) ==> forall|index: usize|
                index < 8 && !stripe_is_kept(db.pruning_seed, index) ==> !now.tapes.contains(
                    (TapeDir::Blob, #[trigger] prunable_name(index)),
                )
        },
{
    let kept = |now: Files, delete: DeleteUnnecessaryTapes, action: Action<()>|
        delete_files(db, before, now, delete, action);
    let (delete, action) = DeleteUnnecessaryTapes::deleting_from(db, 0);
    let seed = db.pruning_seed;
    lemma_first_tape(seed, false, 0);
    assert forall|i: usize| i < first_tape(seed, false, 0) implies #[trigger] stripe_is_kept(
        seed,
        i,
    ) by {
        assert(keeps_tape(seed, i as int));
    }
    assert forall|s: Files, m: DeleteUnnecessaryTapes, request: Request, reply: Reply|
        kept(s, m, Action::Perform(request)) && #[trigger] s.answers(request, reply) && (
        #[trigger] m.next(reply)) is Some implies kept(
        after(s, request, reply),
        (m.next(reply)->0).0,
        (m.next(reply)->0).1,
    ) by {
        let index = m.deleting->0;
        let then = after(s, request, reply);
        lemma_first_tape(db.pruning_seed, false, index + 1);
        lemma_one_file(db.config, s, Tape::Prunable(index));
        if !(reply is Failed) {
            assert(file_of(Tape::Prunable(index)) == (TapeDir::Blob, prunable_name(index)));
            assert forall|i: usize|
                i < first_tape(db.pruning_seed, false, index + 1) && !stripe_is_kept(
                    db.pruning_seed,
                    i,
                ) implies !then.tapes.contains((TapeDir::Blob, #[trigger] prunable_name(i))) by {
                if i > index {
                    assert(keeps_tape(db.pruning_seed, i as int));
                } else if i < index {
                    assert(!s.tapes.contains((TapeDir::Blob, prunable_name(i))));
                }
            }
        }
    }
    lemma_run_keeps(kept, before, delete, action, replies);
}

/// What holds of the files, and of the deletion, wherever the deletion waits and where it ends.
spec fn delete_files(
    db: BlockchainDatabase,
    before: Files,
    now: Files,
    delete: DeleteUnnecessaryTapes,
    action: Action<()>,
) -> bool {
    let seed = db.pruning_seed;
    &&& delete.db.pruning_seed == seed
    &&& delete.db.config == db.config
    &&& now.keyspaces == before.keyspaces
    &&& forall|file: (TapeDir, Seq<char>)| #[trigger]
        now.tapes.contains(file) ==> before.tapes.contains(file)
    &&& forall|file: (TapeDir, Seq<char>)| #[trigger]
        before.tapes.contains(file) && !now.tapes.contains(file) ==> exists|index: usize|
            index < 8 && !stripe_is_kept(seed, index) && file == (
                TapeDir::Blob,
                #[trigger] prunable_name(index),
            )
    &&& match delete.deleting {
        Some(index) => {
            &&& index < PRUNABLE_TAPES
            &&& !stripe_is_kept(seed, index)
            &&& forall|i: usize|
                i < index && !stripe_is_kept(seed, i) ==> !now.tapes.contains(
                    (TapeDir::Blob, #[trigger] prunable_name(i)),
                )
            &&& action == Action::<()>::Perform(
                Request::DeleteTape {
                    tape: Tape::Prunable(index),
                    options: options_of_tape(Tape::Prunable(index), db.config.cache_sizes),
                },
            )
        },
        None => {
            &&& action is Finished
            &&& action matches Action::Finished(Ok(_)) ==> forall|i: usize|
                i < 8 && !stripe_is_kept(seed, i) ==> !now.tapes.contains(
                    (TapeDir::Blob, #[trigger] prunable_name(i)),
                )
        },
    }
}

} // verus!
