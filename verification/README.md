# gossip_chat

The verified core of a small chat over libp2p's gossipsub, and the program around it.

Start two instances in two terminals. The first shows where it can be reached:

    Local node is listening on /ip4/127.0.0.1/tcp/24915/p2p/12D3KooW...

Start the second with that address as its first argument. The address may also be given without
its peer id, as `/ip4/127.0.0.1/tcp/24915`; it is then dialed as it stands. Any
other address without a peer id, such as `/dns4/example.com/tcp/24915`, is passed over, with a
notice. Each line that is typed in one terminal is shown in the other. `exit` ends the chat.

## Layout

- `src/address.rs`: peer ids and multiaddresses, by their encodings.
- `src/message.rs`: messages, and the ids that follow from their content.
- `src/pending.rs`: the dials that are under way.
- `src/network.rs`: the client's commands and the event loop that answers them.
- `src/bootstrap.rs`: the peers named on the command line.
- `src/chat.rs`: what is typed and what is shown.
- `src/laws.rs`: what holds of the library as a whole.
- `app/`: the swarm, the channels, the terminal.
