# tap

Linux tap interfaces: naming them, parsing the specs that ask for one
(`<if_name>`, `fd:<fd>:<if_name>`, `fdp:<fd>:<if_name>`), and opening them.

`src/` is the library, verified with Verus. It makes no system call: each
operation yields the call to make as a value, and takes the reply.

- `text`: cutting strings and reading numbers, at the byte level.
- `open_spec`: tap open specs.
- `ifreq`: interface names and interface requests.
- `ioctl`: the request numbers of the tun/tap driver.
- `syscall`: system calls and their replies as values.
- `tap`: taps, and how one is opened call by call.
- `laws`: what holds of every way in which an opening can go.

`app/` makes the calls, owns the descriptors and prints the errors.
