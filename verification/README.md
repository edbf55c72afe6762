# sd_video_hook

Videos of a visual novel stay invisible on recent graphics cards: the game decodes
them into an offscreen render target, sets everything up, and then skips the draw
call that would show them. This library is loaded into the game, watches three
methods of its Direct3D 9 device, and issues that draw call once per frame.

`src/` holds what the hook decides and what it logs, verified with Verus. It never
touches the device: every function takes what an outside call returned and answers
with what to do next.

| Module | Content |
|---|---|
| `d3d` | slots, surface descriptions, the quad that shows a video |
| `hooks` | what is remembered between calls; the entry point |
| `capture` | `Direct3DCreate9`, `Direct3DCreate9Ex`: taking over the root object |
| `device` | `CreateDevice`, hooking a device, and its watched methods |
| `frames` | what holds over many calls: at most one draw per frame |
| `worker` | the worker thread |
| `session` | what holds over a whole run of the worker thread |
| `history` | what holds in every state the hook can get into |
| `message`, `text` | log lines and the numbers in them |
| `logger` | where a log line goes |

`app/` is the library that Windows loads: it makes the calls into Windows and
Direct3D, and installs the detours.
