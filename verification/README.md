# gcs-rsync

Decides how a source storage is synchronised or mirrored to a destination
storage, each of them a bucket or a directory, and proves what these decisions
come to.

- `src/` is the library. Synchronising or mirroring an entry is a task that asks
  for one operation on a storage at a time and takes the reply to it.
  - `path`, `filter`: names of entries, and regular expressions that select them.
  - `storage`: the two ends, what they tell of an entry, how they write one.
  - `entry`, `rsync`: the task that synchronises one entry.
  - `mirror`: the check of an entry that the destination lists, and the order of
    a whole mirroring.
  - `status`, `error`, `text`: what a task comes to, and how it prints.
  - `laws`, `mirror_laws`: what holds of whole tasks and whole mirrorings.
- `app/` performs the operations on real storages, as streams of futures.
- `tests/` runs the library.
