# passthrough_fs

A file system that passes the requests of a virtual machine's guest through to a directory of its
host, over virtio-fs. The owner and mode that the guest gives to a file, and the guest's extended
attributes, are kept in extended attributes of the host, so that the server needs no privileges.

`src/` is the library, verified with Verus. It decides, and leaves the calls to others: a request is
a value that says which call of the host it waits for, and each reply takes it one step further.

| modules | what they hold |
| --- | --- |
| `abi`, `model`, `config`, `step` | numbers, plain values, options, calls and replies |
| `text`, `override_stat`, `guest_xattr`, `dirent` | what is stored on the host and read from it |
| `access` | who may do what |
| `multikey`, `fs` | the state: inodes, handles, files to be closed |
| `capability`, `session` | setting up and mounting |
| `metadata`, `attr`, `lookup`, `open`, `create`, `setattr`, `io`, `scoped`, `readdir`, `xattr`, `mapping`, `ioctl`, `ops` | the requests |
| `fs_laws`, `lookup_laws`, `create_laws`, `request_laws`, `progress` | what holds whatever the client and the host do |

`app/` performs the calls on Linux. `tests/` runs whole requests against a host that is kept in
memory.
