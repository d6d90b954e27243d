# blockchain_database

The decision logic of a blockchain database, with machine-checked proofs.

The database keeps the chain in append-only tapes, which are authoritative, and what it derives
from the chain in the keyspaces of a key-value store. A node may be pruned: it then keeps the
prunable data of one stripe of the chain in a tape, and that of the last blocks in a keyspace.

## How it works

The library does no I/O. Every operation of the database is a value that yields one action at a
time: a request to perform, or the outcome. The caller performs the request and hands the reply
back:

- `opening` opens what is on disk, and deletes the prunable tapes that a pruned node does not keep;
- `reading` takes a pair of snapshots of the key-value store and the tapes that agree;
- `consistency` builds the keyspaces anew if they are out of sync, and prunes the node if it
  should be;
- `rebuild` and `replay` build the keyspaces anew from the tapes;
- `activation` and `fill` turn a node into a pruned one;
- `tips` compares the main-chain tips;
- `closing` pushes what was written to the disk.

`layout`, `pruning` and `encoding` say what is stored where and how, `state` what an open database
knows of itself, `request` and `operation` what the operations ask for and how they run, and
`outside` which outside functions are called and what is claimed of them.

## What is proved

Every step of every operation does what its specification says, and every operation ends. `laws`
has a model of the storage, and proves of the operations on it, among other things:

- turning a node into a pruned one can be cut short anywhere, even by a crash, without losing
  data, and can be started again;
- opening a database gives back what is stored, and deletes nothing that the node keeps;
- building the keyspaces anew adds every block once, in order, with exactly its transactions and
  under the ID of the one that mined it, and puts them at the tip of the tapes;
- whatever the tapes hold, it touches nothing but those keyspaces;
- a reader gets the first pair of snapshots that agrees, and gives up after a minute;
- an operation succeeds if no request fails and the storage is sound.

`app/` performs the requests with fjall and tapes.
