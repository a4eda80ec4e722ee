# kasa_power

A monitor for a TP-Link Kasa smart plug. It polls the plug, keeps the readings of the last
twenty seconds that changed something, and publishes them over MQTT at most every fifteen
seconds. A lamp shows that it is alive, a button makes the lamp flicker.

`src/` is the library, proved with Verus: everything that decides or computes.

| module     | what it holds                                                         |
|------------|-----------------------------------------------------------------------|
| `protocol` | the plug's cipher and its length-prefixed frames                      |
| `exchange` | one request and its answer over a connection                          |
| `kasa`     | the plug's answer, and the reading made from it                       |
| `cache`    | the readings kept, their eviction, the published report, the summary  |
| `stats`    | median and mean                                                       |
| `monitor`  | the polling and publishing task                                       |
| `led`      | the lamp's task and its interruptible waits                           |
| `button`   | the button's task                                                     |
| `net`      | bringing the radio up and keeping it connected                        |
| `mqtt`     | the broker's address and the log lines of its events                  |
| `time`     | points in time, spans and offsets, computed by `chrono`               |
| `text`     | whole numbers in decimal                                              |

`app/` is the firmware around it: pins, sockets, the radio driver, the broker's client, JSON,
log output and floating point. Each task there performs the action that the library names and
hands back what came of it.

`tests/` runs the library with the real `chrono` and `tplink-shome-protocol`.
